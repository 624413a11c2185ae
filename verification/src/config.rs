//! Runtime configuration read by every refresh driver.

use vstd::prelude::*;

verus! {

/// Configuration for the memory usage tracking machinery.
///
/// The host application owns one value of this type and may change it
/// between refresh cycles; every refresh driver reads it once per cycle.
#[derive(Debug)]
pub struct MemoryConfig {
    /// Whether to track memory usage for all registered types.
    ///
    /// With `global` false a refresh driver skips its cycle entirely and
    /// leaves the registry untouched.
    pub global: bool,

    /// Names of additional mesh vertex attributes to track.
    ///
    /// A composite mesh estimator only accounts for a fixed default set of
    /// vertex attribute names; any custom attribute must be named here for
    /// its memory usage to be counted.
    pub additional_mesh_vertex_attributes: Vec<String>,
}

impl MemoryConfig {
    /// Returns a new configuration in its default state, except that
    /// `global` is `false`.
    pub fn disabled_at_start() -> (r: Self)
        ensures
            r.global == false,
            r.additional_mesh_vertex_attributes@ == Seq::<String>::empty(),
    {
        MemoryConfig { global: false, additional_mesh_vertex_attributes: Vec::new() }
    }
}

impl Clone for MemoryConfig {
    /// Copies the configuration: the host propagates such a copy once per
    /// cycle into a second pipeline context, whose drivers then read it.
    fn clone(&self) -> (r: Self)
        ensures
            r.global == self.global,
            r.additional_mesh_vertex_attributes.deep_view()
                == self.additional_mesh_vertex_attributes.deep_view(),
    {
        let extra = self.additional_mesh_vertex_attributes.clone();
        proof {
            assert forall|i: int| 0 <= i < extra@.len() implies extra.deep_view()[i]
                == self.additional_mesh_vertex_attributes.deep_view()[i] by {
                assert(cloned::<String>(
                    self.additional_mesh_vertex_attributes@[i],
                    extra@[i],
                ));
            }
            assert(extra.deep_view()
                =~= self.additional_mesh_vertex_attributes.deep_view());
        }
        MemoryConfig { global: self.global, additional_mesh_vertex_attributes: extra }
    }
}

impl Default for MemoryConfig {
    /// Tracking is enabled by default, with no additional mesh attributes.
    fn default() -> (r: Self)
        ensures
            r.global == true,
            r.additional_mesh_vertex_attributes@ == Seq::<String>::empty(),
    {
        MemoryConfig { global: true, additional_mesh_vertex_attributes: Vec::new() }
    }
}

} // verus!

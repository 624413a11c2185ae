use memstats::config::MemoryConfig;
use memstats::estimator::ZeroEstimator;
use memstats::image::ImageData;
use memstats::image::ImageSizeEstimator;
use memstats::mesh::AttributeBuffer;
use memstats::mesh::MeshData;
use memstats::mesh::VertexFormat;
use memstats::resource::TypeIdentity;
use memstats::resource::UnregisteredType;
use memstats::resource::MemoryUsage;
use memstats::stats::MemoryStats;
use memstats::systems::update_stats;
use memstats::systems::update_stats_for_component;
use memstats::systems::update_stats_for_render_asset;
use memstats::systems::update_stats_for_resource;
use memstats::mesh::update_stats_for_meshes;

fn stats(count: usize, stack: usize, heap: usize) -> MemoryStats {
    MemoryStats { count, total_stack_bytes: stack, total_heap_bytes: heap }
}

#[test]
fn component_driver_folds_all_instances() {
    let mut usage = MemoryUsage::new();
    let id = TypeIdentity::new(1);
    usage.register_type(id);
    let config = MemoryConfig::default();

    let instances: Vec<u64> = vec![1, 2, 3];
    let r = update_stats_for_component::<u64, ZeroEstimator>(&instances, &config, &mut usage, id);
    assert_eq!(r, Ok(()));
    assert_eq!(usage.get_stats(id), Some(stats(3, 24, 0)));
}

#[test]
fn resource_driver_measures_the_single_instance() {
    let mut usage = MemoryUsage::new();
    let id = TypeIdentity::new(1);
    usage.register_type(id);
    let config = MemoryConfig::default();

    let image = ImageData { data: vec![0u8; 7] };
    let r = update_stats_for_resource::<ImageData, ImageSizeEstimator>(
        &image, &config, &mut usage, id,
    );
    assert_eq!(r, Ok(()));
    assert_eq!(
        usage.get_stats(id),
        Some(stats(1, std::mem::size_of::<ImageData>(), 7))
    );
}

#[test]
fn render_asset_driver_measures_prepared_instances() {
    let mut usage = MemoryUsage::new();
    let id = TypeIdentity::new(1);
    usage.register_type(id);
    let config = MemoryConfig::default();

    let prepared = vec![
        ImageData { data: vec![0u8; 4] },
        ImageData { data: vec![0u8; 6] },
    ];
    let r = update_stats_for_render_asset::<ImageData, ImageSizeEstimator>(
        &prepared, &config, &mut usage, id,
    );
    assert_eq!(r, Ok(()));
    assert_eq!(
        usage.get_stats(id),
        Some(stats(2, 2 * std::mem::size_of::<ImageData>(), 10))
    );
}

#[test]
fn disabled_tracking_leaves_the_registry_unchanged() {
    let mut usage = MemoryUsage::new();
    let id = TypeIdentity::new(1);
    usage.register_type(id);
    let enabled = MemoryConfig::default();
    let instances: Vec<u64> = vec![1, 2, 3];
    update_stats_for_component::<u64, ZeroEstimator>(&instances, &enabled, &mut usage, id)
        .unwrap();
    let before = usage.get_stats(id);

    let disabled = MemoryConfig::disabled_at_start();
    let more: Vec<u64> = vec![1, 2, 3, 4, 5];
    let r = update_stats_for_component::<u64, ZeroEstimator>(&more, &disabled, &mut usage, id);
    assert_eq!(r, Ok(()));
    assert_eq!(usage.get_stats(id), before);
}

#[test]
fn disabled_tracking_never_runs_the_closure() {
    let mut usage = MemoryUsage::new();
    let id = TypeIdentity::new(1);
    let config = MemoryConfig::disabled_at_start();

    let r = update_stats(&config, &mut usage, id, || panic!("not run when disabled"));
    assert_eq!(r, Ok(()));
}

#[test]
fn driver_fails_loudly_for_an_unregistered_type() {
    let mut usage = MemoryUsage::new();
    let id = TypeIdentity::new(1);
    let config = MemoryConfig::default();

    let instances: Vec<u64> = vec![1];
    let r = update_stats_for_component::<u64, ZeroEstimator>(&instances, &config, &mut usage, id);
    assert_eq!(r, Err(UnregisteredType));
    assert_eq!(usage.get_stats(id), None);
}

#[test]
fn mesh_driver_uses_the_configured_extra_attributes() {
    let mut usage = MemoryUsage::new();
    let id = TypeIdentity::new(1);
    usage.register_type(id);

    let mut mesh = MeshData::new();
    mesh.set_attribute(
        "Vertex_Position".to_string(),
        AttributeBuffer { format: VertexFormat::Uint8x2, len: 50 },
    );
    mesh.set_attribute(
        "custom".to_string(),
        AttributeBuffer { format: VertexFormat::Uint8x2, len: 25 },
    );
    let meshes = vec![mesh];

    let plain = MemoryConfig::default();
    update_stats_for_meshes(&meshes, &plain, &mut usage, id).unwrap();
    let attribute_stack_size = std::mem::size_of::<AttributeBuffer>();
    assert_eq!(
        usage.get_stats(id),
        Some(stats(1, std::mem::size_of::<MeshData>(), 100 + attribute_stack_size))
    );

    let configured = MemoryConfig {
        global: true,
        additional_mesh_vertex_attributes: vec!["custom".to_string()],
    };
    update_stats_for_meshes(&meshes, &configured, &mut usage, id).unwrap();
    assert_eq!(
        usage.get_stats(id),
        Some(stats(
            1,
            std::mem::size_of::<MeshData>(),
            150 + 2 * attribute_stack_size
        ))
    );
}

#[test]
fn config_defaults() {
    let config = MemoryConfig::default();
    assert!(config.global);
    assert!(config.additional_mesh_vertex_attributes.is_empty());

    let disabled = MemoryConfig::disabled_at_start();
    assert!(!disabled.global);
    assert!(disabled.additional_mesh_vertex_attributes.is_empty());

    let configured = MemoryConfig {
        global: false,
        additional_mesh_vertex_attributes: vec!["custom".to_string()],
    };
    let copy = configured.clone();
    assert!(!copy.global);
    assert_eq!(copy.additional_mesh_vertex_attributes, vec!["custom".to_string()]);
}

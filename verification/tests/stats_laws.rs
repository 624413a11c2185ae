use memstats::estimator::ForwardingEstimator;
use memstats::estimator::SliceEstimator;
use memstats::estimator::ZeroEstimator;
use memstats::image::ImageData;
use memstats::mesh::AttributeBuffer;
use memstats::mesh::VertexFormat;
use memstats::stats::MemoryStats;

fn stats(count: usize, stack: usize, heap: usize) -> MemoryStats {
    MemoryStats { count, total_stack_bytes: stack, total_heap_bytes: heap }
}

#[test]
fn combine_has_identity() {
    let a = stats(1, 2, 3);
    assert_eq!(a.combine(MemoryStats::default()), a);
    assert_eq!(MemoryStats::default().combine(a), a);
}

#[test]
fn combine_is_commutative() {
    let a = stats(1, 2, 3);
    let b = stats(40, 50, 60);
    assert_eq!(a.combine(b), b.combine(a));
}

#[test]
fn combine_is_associative() {
    let a = stats(1, 2, 3);
    let b = stats(40, 50, 60);
    let c = stats(700, 800, 900);
    assert_eq!(a.combine(b).combine(c), a.combine(b.combine(c)));
}

#[test]
fn combine_sums_fields() {
    let a = stats(1, 2, 3);
    let b = stats(40, 50, 60);
    assert_eq!(a.combine(b), stats(41, 52, 63));
}

#[test]
fn combine_saturates_instead_of_overflowing() {
    let a = stats(usize::MAX, usize::MAX - 1, 0);
    let b = stats(1, 2, 3);
    assert_eq!(a.combine(b), stats(usize::MAX, usize::MAX, 3));
}

#[test]
fn total_bytes_sums_stack_and_heap() {
    assert_eq!(stats(1, 2, 3).total_bytes(), 5);
    assert_eq!(stats(0, usize::MAX, 1).total_bytes(), usize::MAX);
}

#[test]
fn from_value_counts_one_instance() {
    let buffer = AttributeBuffer { format: VertexFormat::Uint8x2, len: 10 };
    let one = MemoryStats::from_value(&buffer);
    assert_eq!(one.count, 1);
    assert_eq!(one.total_stack_bytes, std::mem::size_of::<AttributeBuffer>());
    assert_eq!(one.total_heap_bytes, 20);
}

#[test]
fn from_values_folds_each_instance() {
    let buffers = vec![
        AttributeBuffer { format: VertexFormat::Uint8x2, len: 10 },
        AttributeBuffer { format: VertexFormat::Float32, len: 5 },
        AttributeBuffer { format: VertexFormat::Float32x3, len: 1 },
    ];
    let folded = MemoryStats::from_values(&buffers);
    assert_eq!(folded.count, 3);
    assert_eq!(folded.total_stack_bytes, 3 * std::mem::size_of::<AttributeBuffer>());
    assert_eq!(folded.total_heap_bytes, 20 + 20 + 12);
}

#[test]
fn from_values_is_independent_of_batching() {
    let buffers = vec![
        AttributeBuffer { format: VertexFormat::Uint8x2, len: 10 },
        AttributeBuffer { format: VertexFormat::Float32, len: 5 },
        AttributeBuffer { format: VertexFormat::Float32x3, len: 1 },
    ];
    let whole = MemoryStats::from_values(&buffers);
    let first = MemoryStats::from_values(&buffers[..1]);
    let rest = MemoryStats::from_values(&buffers[1..]);
    assert_eq!(whole, first.combine(rest));
}

#[test]
fn from_values_is_independent_of_order() {
    let mut buffers = vec![
        AttributeBuffer { format: VertexFormat::Uint8x2, len: 10 },
        AttributeBuffer { format: VertexFormat::Float32, len: 5 },
        AttributeBuffer { format: VertexFormat::Float32x3, len: 1 },
    ];
    let forward = MemoryStats::from_values(&buffers);
    buffers.reverse();
    let backward = MemoryStats::from_values(&buffers);
    assert_eq!(forward, backward);
}

#[test]
fn from_values_of_nothing_is_identity() {
    let buffers: Vec<AttributeBuffer> = Vec::new();
    assert_eq!(MemoryStats::from_values(&buffers), MemoryStats::default());
}

#[test]
fn stack_size_is_exact() {
    let value: u64 = 7;
    assert_eq!(MemoryStats::stack_size_of(&value), 8);
}

#[test]
fn zero_estimator_reports_no_heap() {
    let value: u64 = 7;
    assert_eq!(MemoryStats::heap_size_of_with_estimator(&value, &ZeroEstimator), 0);
}

#[test]
fn slice_estimator_extrapolates_from_length() {
    let values: Vec<u32> = vec![1, 2, 3, 4, 5];
    assert_eq!(MemoryStats::heap_size_of_with_estimator(&values, &SliceEstimator), 20);
}

#[test]
fn forwarding_estimator_delegates_to_the_type() {
    let image = ImageData { data: vec![0u8; 7] };
    assert_eq!(MemoryStats::heap_size_of_with_estimator(&image, &ForwardingEstimator), 7);
    assert_eq!(MemoryStats::heap_size_of(&image), 7);
    assert_eq!(
        MemoryStats::total_size_of(&image),
        std::mem::size_of::<ImageData>() + 7
    );
}

use bevy_compute_noise::image::ImageHandle;
use bevy_compute_noise::image::TextureDimension;
use bevy_compute_noise::noise::NoiseTypeId;
use bevy_compute_noise::render::pipeline::ComputeNoisePipelineKey;
use bevy_compute_noise::render::pipeline::NoiseOp;
use bevy_compute_noise::table::copy_nested;
use bevy_compute_noise::table::copy_vec;
use bevy_compute_noise::table::Table;
use bevy_compute_noise::table::TableKey;

#[test]
fn a_table_keeps_the_order_of_first_insertion() {
    let mut table: Table<ImageHandle, u32> = Table::new();
    assert!(table.is_empty());
    assert_eq!(table.insert(ImageHandle::new(3), 30), None);
    assert_eq!(table.insert(ImageHandle::new(1), 10), None);
    assert_eq!(table.insert(ImageHandle::new(2), 20), None);
    assert_eq!(table.insert(ImageHandle::new(1), 11), Some(10));
    assert_eq!(table.len(), 3);
    assert_eq!(table.key_at(0), ImageHandle::new(3));
    assert_eq!(table.key_at(1), ImageHandle::new(1));
    assert_eq!(table.key_at(2), ImageHandle::new(2));
    assert_eq!(*table.value_at(1), 11);
    assert_eq!(table.position(&ImageHandle::new(2)), Some(2));
    assert_eq!(table.position(&ImageHandle::new(9)), None);
    assert_eq!(table.get(&ImageHandle::new(3)), Some(&30));
    assert_eq!(table.get(&ImageHandle::new(9)), None);
    assert!(table.contains_key(&ImageHandle::new(1)));
    assert!(!table.contains_key(&ImageHandle::new(0)));
}

#[test]
fn removal_keeps_the_order_of_the_rest() {
    let mut table: Table<ImageHandle, u32> = Table::new();
    for id in [5u64, 6, 7, 8] {
        table.insert(ImageHandle::new(id), id as u32 * 2);
    }
    assert_eq!(table.remove(&ImageHandle::new(6)), Some(12));
    assert_eq!(table.remove(&ImageHandle::new(6)), None);
    assert_eq!(table.len(), 3);
    assert_eq!(table.key_at(1), ImageHandle::new(7));
    assert_eq!(*table.value_at(2), 16);
    assert_eq!(table.replace_at(0, 1), 10);
    assert_eq!(table.get(&ImageHandle::new(5)), Some(&1));
    *table.value_at_mut(1) = 99;
    assert_eq!(table.get(&ImageHandle::new(7)), Some(&99));
    table.clear();
    assert!(table.is_empty());
    assert_eq!(table.get(&ImageHandle::new(5)), None);
}

#[test]
fn keys_have_numbers_of_their_own() {
    let mut seen = Vec::new();
    for base in [0u32, 1, 2, u32::MAX] {
        for fbm in [false, true] {
            let type_id = NoiseTypeId { base, fbm };
            for dimension in [TextureDimension::D1, TextureDimension::D2, TextureDimension::D3] {
                for op in [NoiseOp::Generator, NoiseOp::Modifier, NoiseOp::Combiner] {
                    seen.push(ComputeNoisePipelineKey { type_id, dimension, op }.code());
                }
            }
        }
    }
    let count = seen.len();
    seen.sort();
    seen.dedup();
    assert_eq!(seen.len(), count);
    assert_eq!(ImageHandle::new(41).code(), 41);
    assert_eq!(NoiseTypeId { base: 5, fbm: true }.code(), 11);
}

#[test]
fn a_table_of_many_keys_finds_each() {
    let mut table: Table<ImageHandle, u64> = Table::new();
    for id in 0..200u64 {
        table.insert(ImageHandle::new(id * 7), id);
    }
    for id in (0..200u64).step_by(3) {
        assert_eq!(table.remove(&ImageHandle::new(id * 7)), Some(id));
    }
    for id in 0..200u64 {
        let expected = if id % 3 == 0 { None } else { Some(&id) };
        assert_eq!(table.get(&ImageHandle::new(id * 7)), expected);
    }
    assert_eq!(table.len(), 133);
    assert_eq!(table.key_at(0), ImageHandle::new(7));
    assert_eq!(table.position(&ImageHandle::new(14)), Some(1));
    assert_eq!(table.position(&ImageHandle::new(28)), Some(2));
}

#[test]
fn copies_are_equal() {
    assert_eq!(copy_vec(&vec![1u8, 2, 3]), vec![1, 2, 3]);
    assert_eq!(copy_vec(&Vec::<u32>::new()), Vec::<u32>::new());
    assert_eq!(copy_nested(&vec![vec![1u32], vec![], vec![2, 3]]), vec![vec![1], vec![], vec![2, 3]]);
}

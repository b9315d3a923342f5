use raytracer::material::{check_scatter, MaterialKind, ScatterUnavailable};
use raytracer::seed::pixel_seed;

#[test]
fn diffuse_scatters() {
    assert_eq!(check_scatter(MaterialKind::Diffuse), Ok(()));
}

#[test]
fn other_materials_refuse_to_scatter() {
    for kind in [MaterialKind::Glossy, MaterialKind::Metal, MaterialKind::Glass] {
        assert_eq!(check_scatter(kind), Err(ScatterUnavailable { kind }));
    }
}

#[test]
fn seed_mixes_base_and_raster_index() {
    assert_eq!(pixel_seed(0, 0, 0, 800), 0);
    assert_eq!(pixel_seed(0, 3, 2, 800), 1603);
    assert_eq!(pixel_seed(0xff00, 0x0f, 0, 800), 0xff0f);
    assert_eq!(pixel_seed(1, 1, 0, 4), 0);
}

#[test]
fn seeds_reproduce_and_differ_per_pixel() {
    let (w, h) = (16u32, 9u32);
    let base = 0x1234_5678_9abc_def0u64;
    let mut seen = std::collections::HashSet::new();
    for y in 0..h {
        for x in 0..w {
            let s = pixel_seed(base, x, y, w);
            assert_eq!(s, pixel_seed(base, x, y, w));
            assert!(seen.insert(s));
        }
    }
    assert_eq!(seen.len(), 144);
}

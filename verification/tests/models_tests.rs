use splat_studio::models::ModelPack;

#[test]
fn model_pack_sizes() {
    let local = ModelPack::LocalRecommended.info();
    assert_eq!(local.title, "Local / 16 GB — public Harmonizer pipeline");
    assert_eq!(f32::from_bits(local.payload_download_gb_bits), 6.24);
    assert_eq!(local.free_disk_gb, 120);
    assert!(local.description.starts_with("Recommended for RTX 4070 Ti Super."));

    let jit = ModelPack::NonTemporalJit.info();
    assert_eq!(jit.title, "Optional 1.45 GB non-temporal JIT checkpoint");
    assert_eq!(f32::from_bits(jit.payload_download_gb_bits), 1.45);
    assert_eq!(jit.free_disk_gb, 120);

    let full = ModelPack::FullHarmonizer.info();
    assert_eq!(full.title, "Full official Harmonizer checkpoint helper");
    assert_eq!(f32::from_bits(full.payload_download_gb_bits), 10.1);
    assert_eq!(full.free_disk_gb, 120);

    let nurec = ModelPack::FullNuRec.info();
    assert_eq!(nurec.title, "Full NuRec containers (optional / remote GPU)");
    assert_eq!(f32::from_bits(nurec.payload_download_gb_bits), 33.73);
    assert_eq!(nurec.free_disk_gb, 160);
    assert!(nurec.description.ends_with("Not intended for the local 16 GB GPU."));
}

#[test]
fn model_pack_list() {
    assert_eq!(
        ModelPack::ALL,
        [
            ModelPack::LocalRecommended,
            ModelPack::NonTemporalJit,
            ModelPack::FullHarmonizer,
            ModelPack::FullNuRec
        ]
    );
}

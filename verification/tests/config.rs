use rmpc_album_art::config::{
    clamp_fps, expand_loader, max_size_from_file, AlbumArtConfig, AlbumArtConfigFile,
    AlbumArtEffect, AlbumArtEffectFile, AlbumArtOrder, AlbumArtOrderFile, HorizontalAlign,
    HorizontalAlignFile, ImageBackend, ImageMethod, ImageMethodFile, Size, VerticalAlign,
    VerticalAlignFile,
};
use rmpc_album_art::paths::tilde_expand;

#[test]
fn rotation_values_are_clamped() {
    let config: AlbumArtConfig = AlbumArtConfig::from_file(
        AlbumArtConfigFile {
            effect: AlbumArtEffectFile::Rotate,
            rotation_fps: 0,
            ..AlbumArtConfigFile::default()
        },
        None,
    );

    assert_eq!(config.effect, AlbumArtEffect::Rotate);
    assert_eq!(config.rotation_fps, 1);
}

#[test]
fn file_defaults() {
    let config = AlbumArtConfigFile::default();
    assert_eq!(config.method, ImageMethodFile::Auto);
    assert_eq!(config.effect, AlbumArtEffectFile::Static);
    assert_eq!(config.order, AlbumArtOrderFile::EmbeddedFirst);
    assert_eq!(config.max_size_px, Size { width: 0, height: 0 });
    assert_eq!(config.disabled_protocols, vec!["http://".to_string(), "https://".to_string()]);
    assert_eq!(config.vertical_align, VerticalAlignFile::Center);
    assert_eq!(config.horizontal_align, HorizontalAlignFile::Center);
    assert_eq!(config.rotation_fps, 6);
    assert_eq!(config.custom_loader, None);
}

#[test]
fn runtime_defaults() {
    let config = AlbumArtConfig::default();
    assert_eq!(config.method, ImageMethod::Block);
    assert_eq!(config.effect, AlbumArtEffect::Static);
    assert_eq!(config.order, AlbumArtOrder::EmbeddedFirst);
    assert_eq!(config.max_size_px, Size { width: 0, height: 0 });
    assert!(config.disabled_protocols.is_empty());
    assert_eq!(config.vertical_align, VerticalAlign::Center);
    assert_eq!(config.horizontal_align, HorizontalAlign::Center);
    assert_eq!(config.rotation_fps, 0);
    assert!(config.custom_loader.is_none());
}

#[test]
fn default_file_converts_to_runtime_defaults() {
    let config = AlbumArtConfig::from_file(AlbumArtConfigFile::default(), None);
    assert_eq!(config.method, ImageMethod::default());
    assert_eq!(config.effect, AlbumArtEffect::default());
    assert_eq!(config.order, AlbumArtOrder::default());
    assert_eq!(config.vertical_align, VerticalAlign::default());
    assert_eq!(config.horizontal_align, HorizontalAlign::default());
    assert_eq!(config.max_size_px, Size { width: u16::MAX, height: u16::MAX });
    assert_eq!(config.rotation_fps, 6);
    assert_eq!(config.disabled_protocols, vec!["http://".to_string(), "https://".to_string()]);
    assert!(config.custom_loader.is_none());
}

#[test]
fn file_method_is_not_carried_over() {
    let config = AlbumArtConfig::from_file(
        AlbumArtConfigFile { method: ImageMethodFile::Kitty, ..AlbumArtConfigFile::default() },
        None,
    );
    assert_eq!(config.method, ImageMethod::Block);
}

#[test]
fn enum_conversions_keep_variant() {
    assert_eq!(AlbumArtEffect::from(AlbumArtEffectFile::Static), AlbumArtEffect::Static);
    assert_eq!(AlbumArtEffect::from(AlbumArtEffectFile::Rotate), AlbumArtEffect::Rotate);
    assert_eq!(VerticalAlign::from(VerticalAlignFile::Top), VerticalAlign::Top);
    assert_eq!(VerticalAlign::from(VerticalAlignFile::Center), VerticalAlign::Center);
    assert_eq!(VerticalAlign::from(VerticalAlignFile::Bottom), VerticalAlign::Bottom);
    assert_eq!(HorizontalAlign::from(HorizontalAlignFile::Left), HorizontalAlign::Left);
    assert_eq!(HorizontalAlign::from(HorizontalAlignFile::Center), HorizontalAlign::Center);
    assert_eq!(HorizontalAlign::from(HorizontalAlignFile::Right), HorizontalAlign::Right);
}

#[test]
fn image_method_from_backend() {
    assert_eq!(ImageMethod::from(ImageBackend::Kitty), ImageMethod::Kitty);
    assert_eq!(ImageMethod::from(ImageBackend::Iterm2), ImageMethod::Iterm2);
    assert_eq!(ImageMethod::from(ImageBackend::Sixel), ImageMethod::Sixel);
    assert_eq!(ImageMethod::from(ImageBackend::UeberzugWayland), ImageMethod::UeberzugWayland);
    assert_eq!(ImageMethod::from(ImageBackend::UeberzugX11), ImageMethod::UeberzugX11);
    assert_eq!(ImageMethod::from(ImageBackend::Block), ImageMethod::Block);
}

#[test]
fn order_conversion_keeps_variant() {
    let cases = [
        (AlbumArtOrderFile::EmbeddedFirst, AlbumArtOrder::EmbeddedFirst),
        (AlbumArtOrderFile::FileFirst, AlbumArtOrder::FileFirst),
        (AlbumArtOrderFile::EmbeddedOnly, AlbumArtOrder::EmbeddedOnly),
        (AlbumArtOrderFile::FileOnly, AlbumArtOrder::FileOnly),
    ];
    for (file, expected) in cases {
        let config = AlbumArtConfig::from_file(
            AlbumArtConfigFile { order: file, ..AlbumArtConfigFile::default() },
            None,
        );
        assert_eq!(config.order, expected);
    }
}

#[test]
fn zero_size_means_unlimited() {
    assert_eq!(
        max_size_from_file(Size { width: 0, height: 0 }),
        Size { width: u16::MAX, height: u16::MAX }
    );
    assert_eq!(max_size_from_file(Size { width: 1200, height: 0 }), Size { width: 1200, height: u16::MAX });
    assert_eq!(max_size_from_file(Size { width: 0, height: 800 }), Size { width: u16::MAX, height: 800 });
    assert_eq!(max_size_from_file(Size { width: 1, height: 1 }), Size { width: 1, height: 1 });
}

#[test]
fn fps_is_held_between_one_and_twelve() {
    assert_eq!(clamp_fps(0), 1);
    assert_eq!(clamp_fps(1), 1);
    assert_eq!(clamp_fps(6), 6);
    assert_eq!(clamp_fps(12), 12);
    assert_eq!(clamp_fps(13), 12);
    assert_eq!(clamp_fps(255), 12);
}

#[test]
fn high_fps_is_clamped_on_conversion() {
    let config = AlbumArtConfig::from_file(
        AlbumArtConfigFile { rotation_fps: 99, ..AlbumArtConfigFile::default() },
        None,
    );
    assert_eq!(config.rotation_fps, 12);
}

#[test]
fn disabled_protocols_are_kept() {
    let config = AlbumArtConfig::from_file(
        AlbumArtConfigFile {
            disabled_protocols: vec!["ftp://".to_string()],
            ..AlbumArtConfigFile::default()
        },
        None,
    );
    assert_eq!(config.disabled_protocols, vec!["ftp://".to_string()]);
}

#[test]
fn tilde_is_expanded_to_home() {
    assert_eq!(tilde_expand("~/bin/loader", Some("/home/user")), "/home/user/bin/loader");
    assert_eq!(tilde_expand("~", Some("/home/user")), "/home/user");
    assert_eq!(tilde_expand("~/", Some("/home/user")), "/home/user/");
}

#[test]
fn other_paths_are_not_expanded() {
    assert_eq!(tilde_expand("~other/bin", Some("/home/user")), "~other/bin");
    assert_eq!(tilde_expand("/usr/bin/~", Some("/home/user")), "/usr/bin/~");
    assert_eq!(tilde_expand("", Some("/home/user")), "");
    assert_eq!(tilde_expand("~/bin", None), "~/bin");
}

#[test]
fn custom_loader_arguments_are_expanded() {
    let config = AlbumArtConfig::from_file(
        AlbumArtConfigFile {
            custom_loader: Some(vec![
                "~/bin/loader".to_string(),
                "--size".to_string(),
                "~".to_string(),
            ]),
            ..AlbumArtConfigFile::default()
        },
        Some("/home/ü"),
    );
    let loader = config.custom_loader.expect("loader stays configured");
    assert_eq!(
        *loader,
        vec!["/home/ü/bin/loader".to_string(), "--size".to_string(), "/home/ü".to_string()]
    );
}

#[test]
fn expand_loader_keeps_length() {
    let out = expand_loader(vec!["a".to_string(), "~/b".to_string()], None);
    assert_eq!(out, vec!["a".to_string(), "~/b".to_string()]);
    assert!(expand_loader(Vec::new(), Some("/h")).is_empty());
}

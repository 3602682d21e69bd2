use famine::texture::{Texture, TextureAction, TextureData};

#[test]
fn raw_data_texture_is_configured_at_once() {
    let t = Texture::from_data(1, 1, vec![255, 0, 0, 255], 7u32);
    assert!(t.configured());
    assert!(t.loaded());
    assert_eq!(*t.handle(), 7);
    assert!(matches!(t.data(), TextureData::RawData(1, 1, bytes) if bytes == &vec![255, 0, 0, 255]));
}

#[test]
fn image_texture_is_configured_only_after_load_and_first_use() {
    let mut t = Texture::from_image("font.png".to_string(), 3u32);
    assert!(!t.configured());
    assert!(!t.loaded());
    assert!(matches!(t.data(), TextureData::ImageData(name) if name == "font.png"));
    t.finish_loading();
    assert!(t.loaded());
    assert!(!t.configured());
    assert_eq!(t.use_texture(), TextureAction::UploadAndBind);
    assert!(t.configured());
    assert_eq!(t.use_texture(), TextureAction::Bind);
    assert!(t.configured());
}

#[test]
fn using_an_unloaded_texture_is_a_repeatable_no_op() {
    let mut t = Texture::from_image("font.png".to_string(), 3u32);
    for _ in 0..3 {
        assert_eq!(t.use_texture(), TextureAction::Skip);
        assert!(!t.loaded());
        assert!(!t.configured());
    }
    t.finish_loading();
    assert_eq!(t.use_texture(), TextureAction::UploadAndBind);
}

#[test]
fn raw_data_texture_binds_without_upload() {
    let mut t = Texture::from_data(3, 3, vec![0; 36], ());
    assert_eq!(t.use_texture(), TextureAction::Bind);
    t.finish_loading();
    assert!(t.configured());
}

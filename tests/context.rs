use famine::context::FontSlot;
use std::cell::Cell;

#[test]
fn font_shader_is_made_on_first_install_only() {
    let made = Cell::new(0u32);
    let mut slot: FontSlot<u32, &str> = FontSlot::new();
    assert!(slot.text_resources().is_none());
    slot.set_font_texture("first", || {
        made.set(made.get() + 1);
        10
    });
    assert_eq!(made.get(), 1);
    assert_eq!(slot.text_resources(), Some((&10, &"first")));
    slot.set_font_texture("second", || {
        made.set(made.get() + 1);
        20
    });
    assert_eq!(made.get(), 1);
    assert_eq!(slot.text_resources(), Some((&10, &"second")));
}

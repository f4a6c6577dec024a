use hyprgreetr::settings::{GeneralConfig, ImageSize, ModulesConfig, MotdConfig};

#[test]
fn default_general_has_title_and_arrow() {
    let g = GeneralConfig::standard();
    assert!(g.show_title);
    assert_eq!(g.title.as_deref(), Some("System Information"));
    assert_eq!(g.separator.symbol, "->");
    assert_eq!(g.colors.separator, "#5555FF");
}

#[test]
fn default_modules() {
    let m = ModulesConfig::standard();
    assert!(m.os && m.cpu && m.battery);
    assert!(!m.packages && !m.locale && !m.public_ip);
    assert!(m.display_names.os.is_none());
}

#[test]
fn default_image_size() {
    let s = ImageSize::standard();
    assert_eq!((s.width, s.height, s.cell_width, s.cell_height), (40, 20, 10, 20));
}

#[test]
fn default_motd() {
    let m = MotdConfig::standard();
    assert!(m.enabled && m.random);
    assert_eq!(m.messages, vec!["Welcome to your system!", "Have a great day!", "Ready to code!"]);
    assert_eq!(m.color, "#00FF00");
}

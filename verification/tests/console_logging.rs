use opcua_core::console_logging::level_style;
use opcua_core::console_logging::Color;
use opcua_core::console_logging::Level;
use opcua_core::console_logging::LevelStyle;
use opcua_core::console_logging::LEVEL_WIDTH;
use opcua_core::console_logging::TARGET_WIDTH;

#[test]
fn each_level_has_its_colours() {
    assert_eq!(
        level_style(Level::Error),
        LevelStyle { color: Color::White, background: Some(Color::Red) }
    );
    assert_eq!(level_style(Level::Warn), LevelStyle { color: Color::Yellow, background: None });
    assert_eq!(level_style(Level::Info), LevelStyle { color: Color::Cyan, background: None });
    assert_eq!(level_style(Level::Debug), LevelStyle { color: Color::Green, background: None });
    assert_eq!(level_style(Level::Trace), LevelStyle { color: Color::Ansi256(8), background: None });
}

#[test]
fn the_columns_have_their_widths() {
    assert_eq!(LEVEL_WIDTH, 5);
    assert_eq!(TARGET_WIDTH, 40);
}

use habitat_ui::error::UiError;
use habitat_ui::status::Status;
use habitat_ui::symbols::{Color, UIColor, UISymbol, UISymbolStyle};

const ALL_SYMBOLS: [UISymbol; 15] = [
    UISymbol::UpArrow,
    UISymbol::FingerPoint,
    UISymbol::CheckMark,
    UISymbol::BoxedCheckMark,
    UISymbol::Omega,
    UISymbol::BoxedX,
    UISymbol::RightArrow,
    UISymbol::Cloud,
    UISymbol::DownArrow,
    UISymbol::Elipses,
    UISymbol::DottedTriangle,
    UISymbol::RightShift,
    UISymbol::Star,
    UISymbol::SlashedZero,
    UISymbol::ErrorX,
];

#[test]
fn every_glyph_renders_in_every_style() {
    for style in [UISymbolStyle::Full, UISymbolStyle::Limited, UISymbolStyle::Ascii] {
        for sym in ALL_SYMBOLS {
            let first = sym.to_str(style);
            assert!(!first.is_empty());
            assert_eq!(first, sym.to_str(style));
        }
    }
}

#[test]
fn glyph_table_samples() {
    assert_eq!(UISymbol::CheckMark.to_str(UISymbolStyle::Ascii), "[x]");
    assert_eq!(UISymbol::CheckMark.to_str(UISymbolStyle::Full), "√");
    assert_eq!(UISymbol::ErrorX.to_str(UISymbolStyle::Full), "✗✗✗");
    assert_eq!(UISymbol::ErrorX.to_str(UISymbolStyle::Limited), "XXX");
    assert_eq!(UISymbol::Star.to_str(UISymbolStyle::Limited), "≡");
    assert_eq!(UISymbol::FingerPoint.to_str(UISymbolStyle::Full), "☛");
    assert_eq!(UISymbol::FingerPoint.to_str(UISymbolStyle::Limited), "→");
    assert_eq!(UISymbol::RightShift.to_str(UISymbolStyle::Ascii), ">>");
}

#[test]
fn style_names_ignore_case() {
    assert_eq!(UISymbolStyle::from_str("full"), Ok(UISymbolStyle::Full));
    assert_eq!(UISymbolStyle::from_str("LiMiTeD"), Ok(UISymbolStyle::Limited));
    assert_eq!(UISymbolStyle::from_str("ASCII"), Ok(UISymbolStyle::Ascii));
    assert_eq!(
        UISymbolStyle::from_str("fancy"),
        Err(UiError::BadSymbolStyle("fancy".to_string()))
    );
    assert_eq!(
        UISymbolStyle::from_str("asci"),
        Err(UiError::BadSymbolStyle("asci".to_string()))
    );
}

#[test]
fn style_selection_order() {
    assert_eq!(UISymbolStyle::select(Some("ascii"), true), UISymbolStyle::Ascii);
    assert_eq!(UISymbolStyle::select(Some("Full"), true), UISymbolStyle::Full);
    assert_eq!(UISymbolStyle::select(Some("bogus"), true), UISymbolStyle::Full);
    assert_eq!(UISymbolStyle::select(None, true), UISymbolStyle::Limited);
    assert_eq!(UISymbolStyle::select(None, false), UISymbolStyle::Full);
    assert_eq!(UISymbolStyle::default(), UISymbolStyle::Full);
}

#[test]
fn semantic_colors_map_to_terminal_colors() {
    assert_eq!(UIColor::Plain.to_color(), Color::White);
    assert_eq!(UIColor::Info.to_color(), Color::Green);
    assert_eq!(UIColor::Important.to_color(), Color::Cyan);
    assert_eq!(UIColor::Warn.to_color(), Color::Yellow);
    assert_eq!(UIColor::Critical.to_color(), Color::Red);
    assert_eq!(UIColor::End.to_color(), Color::Magenta);
}

#[test]
fn status_catalog_entries() {
    let (g, label, c) = Status::Promoted.parts();
    assert_eq!((g, label.as_str(), c), (UISymbol::CheckMark, "Promoted", UIColor::Info));
    let (g, label, c) = Status::DryRunDeleting.parts();
    assert_eq!(
        (g, label.as_str(), c),
        (UISymbol::BoxedX, "Would be deleted (Dry run)", UIColor::Critical)
    );
    let (g, label, c) = Status::Missing.parts();
    assert_eq!((g, label.as_str(), c), (UISymbol::DottedTriangle, "Missing", UIColor::Critical));
    let (g, label, c) = Status::Signing.parts();
    assert_eq!((g, label.as_str(), c), (UISymbol::FingerPoint, "Signing", UIColor::Important));
    let (g, label, c) = Status::Creating.parts();
    assert_eq!((g, label.as_str(), c), (UISymbol::Omega, "Creating", UIColor::Info));
}

#[test]
fn custom_status_passes_through() {
    let (g, label, c) = Status::Custom(UISymbol::Cloud, "Syncing".to_string()).parts();
    assert_eq!((g, label.as_str(), c), (UISymbol::Cloud, "Syncing", UIColor::Info));
}

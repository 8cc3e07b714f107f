use material_colors::palette::{CorePalette, TonalPalette, TONE_COUNT};
use material_colors::scheme::Scheme;

// A palette whose color at tone t records the palette's tag and the tone, so a
// scheme role shows which palette and tone it was taken from.
fn tagged(tag: u32) -> TonalPalette {
    let tones: Vec<u32> = (0..TONE_COUNT as u32).map(|t| (tag << 8) | t).collect();
    TonalPalette::from_tones(tones).unwrap()
}

fn sample_core() -> CorePalette {
    CorePalette {
        a1: tagged(1),
        a2: tagged(2),
        a3: tagged(3),
        n1: tagged(4),
        n2: tagged(5),
        error: tagged(6),
    }
}

fn at(tag: u32, tone: u32) -> u32 {
    (tag << 8) | tone
}

#[test]
fn palette_needs_one_color_per_tone() {
    assert!(TonalPalette::from_tones(vec![0; 100]).is_none());
    assert!(TonalPalette::from_tones(vec![0; 102]).is_none());
    assert!(TonalPalette::from_tones(Vec::new()).is_none());
    assert!(TonalPalette::from_tones(vec![0; 101]).is_some());
}

#[test]
fn palette_returns_color_at_tone() {
    let p = tagged(9);
    assert_eq!(p.tone(0), at(9, 0));
    assert_eq!(p.tone(50), at(9, 50));
    assert_eq!(p.tone(100), at(9, 100));
}

#[test]
fn light_scheme_layout() {
    let s = Scheme::light_from_core_palette(&sample_core());
    assert_eq!(s.primary, at(1, 40));
    assert_eq!(s.on_primary, at(1, 100));
    assert_eq!(s.primary_container, at(1, 90));
    assert_eq!(s.on_primary_container, at(1, 10));
    assert_eq!(s.secondary, at(2, 40));
    assert_eq!(s.on_secondary, at(2, 100));
    assert_eq!(s.secondary_container, at(2, 90));
    assert_eq!(s.on_secondary_container, at(2, 10));
    assert_eq!(s.tertiary, at(3, 40));
    assert_eq!(s.on_tertiary, at(3, 100));
    assert_eq!(s.tertiary_container, at(3, 90));
    assert_eq!(s.on_tertiary_container, at(3, 10));
    assert_eq!(s.error, at(6, 40));
    assert_eq!(s.on_error, at(6, 100));
    assert_eq!(s.error_container, at(6, 90));
    assert_eq!(s.on_error_container, at(6, 10));
    assert_eq!(s.background, at(4, 99));
    assert_eq!(s.on_background, at(4, 10));
    assert_eq!(s.surface, at(4, 99));
    assert_eq!(s.on_surface, at(4, 10));
    assert_eq!(s.surface_variant, at(5, 90));
    assert_eq!(s.on_surface_variant, at(5, 30));
    assert_eq!(s.outline, at(5, 50));
    assert_eq!(s.shadow, at(4, 0));
    assert_eq!(s.inverse_surface, at(4, 20));
    assert_eq!(s.inverse_on_surface, at(4, 95));
    assert_eq!(s.inverse_primary, at(1, 80));
}

#[test]
fn dark_scheme_layout() {
    let s = Scheme::dark_from_core_palette(&sample_core());
    assert_eq!(s.primary, at(1, 80));
    assert_eq!(s.on_primary, at(1, 20));
    assert_eq!(s.primary_container, at(1, 30));
    assert_eq!(s.on_primary_container, at(1, 90));
    assert_eq!(s.secondary, at(2, 80));
    assert_eq!(s.on_secondary, at(2, 20));
    assert_eq!(s.secondary_container, at(2, 30));
    assert_eq!(s.on_secondary_container, at(2, 90));
    assert_eq!(s.tertiary, at(3, 80));
    assert_eq!(s.on_tertiary, at(3, 20));
    assert_eq!(s.tertiary_container, at(3, 30));
    assert_eq!(s.on_tertiary_container, at(3, 90));
    assert_eq!(s.error, at(6, 80));
    assert_eq!(s.on_error, at(6, 20));
    assert_eq!(s.error_container, at(6, 30));
    assert_eq!(s.on_error_container, at(6, 80));
    assert_eq!(s.background, at(4, 10));
    assert_eq!(s.on_background, at(4, 90));
    assert_eq!(s.surface, at(4, 10));
    assert_eq!(s.on_surface, at(4, 90));
    assert_eq!(s.surface_variant, at(5, 30));
    assert_eq!(s.on_surface_variant, at(5, 80));
    assert_eq!(s.outline, at(5, 60));
    assert_eq!(s.shadow, at(4, 0));
    assert_eq!(s.inverse_surface, at(4, 90));
    assert_eq!(s.inverse_on_surface, at(4, 20));
    assert_eq!(s.inverse_primary, at(1, 40));
}

use libtomatillo::view::font::ansi_shadow;
use libtomatillo::view::font::ansi_shadow::AnsiShadow;
use libtomatillo::view::font::templar;
use libtomatillo::view::font::templar::Templar;
use libtomatillo::view::font::{
    Character, CompositeChar, Font, NoopFont, ANSI_SHADOW, NONE, TEMPLAR,
};

#[test]
fn test_should_return_height_range() {
    let font = AnsiShadow;

    assert_eq!(font.height_range(), (0..ansi_shadow::HEIGHT).into());
    assert_eq!(font.height_range(), 0..6);
}

#[test]
fn test_should_return_none_given_key_that_does_not_exist() {
    let font = AnsiShadow;

    assert_eq!(font.get('a'), None);
}

#[test]
fn test_character_set() {
    let font = Templar;
    assert_eq!(font.height_range(), (0..templar::HEIGHT).into());
    assert_eq!(font.get('0'), Some(CompositeChar('0', ["┏┓", "┃┫", "┗┛"])));
    assert_eq!(font.get('1'), Some(CompositeChar('1', ["┓ ", "┃ ", "┻ "])));
    assert_eq!(font.get('2'), Some(CompositeChar('2', ["┏┓", "┏┛", "┗━"])));
    assert_eq!(font.get('3'), Some(CompositeChar('3', ["┏┓", " ┫", "┗┛"])));
    assert_eq!(font.get('4'), Some(CompositeChar('4', ["┏┓", "┃┃", "┗╋"])));
    assert_eq!(font.get('5'), Some(CompositeChar('5', ["┏━", "┗┓", "┗┛"])));
    assert_eq!(font.get('6'), Some(CompositeChar('6', ["┏┓", "┣┓", "┗┛"])));
    assert_eq!(font.get('7'), Some(CompositeChar('7', ["━┓", " ┃", " ╹"])));
    assert_eq!(font.get('8'), Some(CompositeChar('8', ["┏┓", "┣┫", "┗┛"])));
    assert_eq!(font.get('9'), Some(CompositeChar('9', ["┏┓", "┗┫", "┗┛"])));
    assert_eq!(font.get(':'), Some(CompositeChar(':', [" ", "•", "•"])));
    assert_eq!(font.get('a'), None);
}

fn drawn<F: Font>(font: &F, index: char) -> String {
    let glyph = font.get(index).expect("should have found character");
    let mut writer = String::new();
    for i in font.height_range() {
        glyph.draw_line(&mut writer, i);
    }
    writer
}

#[test]
fn test_retrieve_character_none() {
    assert_eq!(drawn(&NONE, '7'), "7");
    assert_eq!(drawn(&NoopFont, ' '), " ");
    assert_eq!(NONE.height_range(), 0..1);
}

#[test]
fn test_retrieve_character_ansi_shadow() {
    let expected = ansi_shadow::FOUR.join("\n");
    assert_eq!(drawn(&ANSI_SHADOW, '4'), expected);
    assert_eq!(
        expected,
        "██╗  ██╗\n██║  ██║\n███████║\n╚════██║\n     ██║\n     ╚═╝"
    );
}

#[test]
fn test_retrieve_character_templar() {
    assert_eq!(drawn(&TEMPLAR, ':'), " \n•\n•");
}

#[test]
fn test_should_return_correct_character() {
    let font = AnsiShadow;
    let table = [
        ('0', ansi_shadow::ZERO),
        ('1', ansi_shadow::ONE),
        ('2', ansi_shadow::TWO),
        ('3', ansi_shadow::THREE),
        ('4', ansi_shadow::FOUR),
        ('5', ansi_shadow::FIVE),
        ('6', ansi_shadow::SIX),
        ('7', ansi_shadow::SEVEN),
        ('8', ansi_shadow::EIGHT),
        ('9', ansi_shadow::NINE),
        (':', ansi_shadow::COLON),
    ];
    for (key, rows) in table {
        assert_eq!(font.get(key), Some(CompositeChar(key, rows)));
    }
    assert_eq!(
        font.get('1'),
        Some(CompositeChar('1', [" ██╗", "███║", "╚██║", " ██║", " ██║", " ╚═╝"]))
    );
}

#[test]
fn glyphs_know_their_size() {
    let zero = AnsiShadow.get('0').unwrap();
    assert_eq!(zero.height(), 6);
    assert_eq!(zero.width(), 9);
    let colon = Templar.get(':').unwrap();
    assert_eq!(colon.height(), 3);
    assert_eq!(colon.width(), 1);
    assert_eq!('x'.height(), 1);
    assert_eq!('x'.width(), 1);
    let empty: CompositeChar<'static, 0> = CompositeChar(' ', []);
    assert_eq!(empty.width(), 0);
}

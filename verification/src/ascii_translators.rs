//! The two-way translation between byte ordinals and characters.
//!
//! Every byte has exactly one character, the one whose scalar value is the
//! byte's ordinal, and the 256 characters up to U+00FF are the only ones that
//! have a byte.

use vstd::prelude::*;
use crate::ascii_consts::{
    NULL, SOH, STX, ETX, EOT, ENQ, ACK, BEL, BS, HT, LF, VT, FF, CR, SO, SI, DLE, DC1, DC2, DC3,
    DC4, NAK, SYN, ETB, CAN, EM, SUB, ESC, FS, GS, RS, US, SPACE, EXCLAMATION_MARK, QUOTATION_MARK,
    NUMBER_SIGN, DOLLAR_SIGN, PERCENT_SIGN, AMPERSAND, APOSTROPHE, LEFT_PARENTHESIS,
    RIGHT_PARENTHESIS, ASTERISK, PLUS_SIGN, COMMA, HYPHEN_MINUS, FULL_STOP, SOLIDUS, DIGIT_ZERO,
    DIGIT_ONE, DIGIT_TWO, DIGIT_THREE, DIGIT_FOUR, DIGIT_FIVE, DIGIT_SIX, DIGIT_SEVEN, DIGIT_EIGHT,
    DIGIT_NINE, COLON, SEMICOLON, LESS_THAN_SIGN, EQUALS_SIGN, GREATER_THAN_SIGN, QUESTION_MARK,
    COMMERCIAL_AT, LATIN_CAPITAL_LETTER_A, LATIN_CAPITAL_LETTER_B, LATIN_CAPITAL_LETTER_C,
    LATIN_CAPITAL_LETTER_D, LATIN_CAPITAL_LETTER_E, LATIN_CAPITAL_LETTER_F, LATIN_CAPITAL_LETTER_G,
    LATIN_CAPITAL_LETTER_H, LATIN_CAPITAL_LETTER_I, LATIN_CAPITAL_LETTER_J, LATIN_CAPITAL_LETTER_K,
    LATIN_CAPITAL_LETTER_L, LATIN_CAPITAL_LETTER_M, LATIN_CAPITAL_LETTER_N, LATIN_CAPITAL_LETTER_O,
    LATIN_CAPITAL_LETTER_P, LATIN_CAPITAL_LETTER_Q, LATIN_CAPITAL_LETTER_R, LATIN_CAPITAL_LETTER_S,
    LATIN_CAPITAL_LETTER_T, LATIN_CAPITAL_LETTER_U, LATIN_CAPITAL_LETTER_V, LATIN_CAPITAL_LETTER_W,
    LATIN_CAPITAL_LETTER_X, LATIN_CAPITAL_LETTER_Y, LATIN_CAPITAL_LETTER_Z, LEFT_SQUARE_BRACKET,
    REVERSE_SOLIDUS, RIGHT_SQUARE_BRACKET, CIRCUMFLEX_ACCENT, LOW_LINE, GRAVE_ACCENT,
    LATIN_SMALL_LETTER_A, LATIN_SMALL_LETTER_B, LATIN_SMALL_LETTER_C, LATIN_SMALL_LETTER_D,
    LATIN_SMALL_LETTER_E, LATIN_SMALL_LETTER_F, LATIN_SMALL_LETTER_G, LATIN_SMALL_LETTER_H,
    LATIN_SMALL_LETTER_I, LATIN_SMALL_LETTER_J, LATIN_SMALL_LETTER_K, LATIN_SMALL_LETTER_L,
    LATIN_SMALL_LETTER_M, LATIN_SMALL_LETTER_N, LATIN_SMALL_LETTER_O, LATIN_SMALL_LETTER_P,
    LATIN_SMALL_LETTER_Q, LATIN_SMALL_LETTER_R, LATIN_SMALL_LETTER_S, LATIN_SMALL_LETTER_T,
    LATIN_SMALL_LETTER_U, LATIN_SMALL_LETTER_V, LATIN_SMALL_LETTER_W, LATIN_SMALL_LETTER_X,
    LATIN_SMALL_LETTER_Y, LATIN_SMALL_LETTER_Z, LEFT_CURLY_BRACKET, VERTICAL_LINE,
    RIGHT_CURLY_BRACKET, TILDE, DEL, EXT_128, EXT_129, EXT_130, EXT_131, EXT_132, EXT_133, EXT_134,
    EXT_135, EXT_136, EXT_137, EXT_138, EXT_139, EXT_140, EXT_141, EXT_142, EXT_143, EXT_144,
    EXT_145, EXT_146, EXT_147, EXT_148, EXT_149, EXT_150, EXT_151, EXT_152, EXT_153, EXT_154,
    EXT_155, EXT_156, EXT_157, EXT_158, EXT_159, NO_BREAK_SPACE, INVERTED_EXCLAMATION_MARK,
    CENT_SIGN, POUND_SIGN, CURRENCY_SIGN, YEN_SIGN, BROKEN_BAR, SECTION_SIGN, DIAERESIS,
    COPYRIGHT_SIGN, FEMININE_ORDINAL_INDICATOR, LEFT_POINTING_DOUBLE_ANGLE_QUOTATION_MARK,
    NOT_SIGN, SHY, REGISTERED_SIGN, MACRON, DEGREE_SIGN, PLUS_MINUS_SIGN, SUPERSCRIPT_TWO,
    SUPERSCRIPT_THREE, ACUTE_ACCENT, MICRO_SIGN, PILCROW_SIGN, MIDDLE_DOT, CEDILLA,
    SUPERSCRIPT_ONE, MASCULINE_ORDINAL_INDICATOR, RIGHT_POINTING_DOUBLE_ANGLE_QUOTATION_MARK,
    VULGAR_FRACTION_ONE_QUARTER, VULGAR_FRACTION_ONE_HALF, VULGAR_FRACTION_THREE_QUARTERS,
    INVERTED_QUESTION_MARK, LATIN_CAPITAL_LETTER_A_WITH_GRAVE, LATIN_CAPITAL_LETTER_A_WITH_ACUTE,
    LATIN_CAPITAL_LETTER_A_WITH_CIRCUMFLEX, LATIN_CAPITAL_LETTER_A_WITH_TILDE,
    LATIN_CAPITAL_LETTER_A_WITH_DIAERESIS, LATIN_CAPITAL_LETTER_A_WITH_RING_ABOVE,
    LATIN_CAPITAL_LETTER_AE, LATIN_CAPITAL_LETTER_C_WITH_CEDILLA,
    LATIN_CAPITAL_LETTER_E_WITH_GRAVE, LATIN_CAPITAL_LETTER_E_WITH_ACUTE,
    LATIN_CAPITAL_LETTER_E_WITH_CIRCUMFLEX, LATIN_CAPITAL_LETTER_E_WITH_DIAERESIS,
    LATIN_CAPITAL_LETTER_I_WITH_GRAVE, LATIN_CAPITAL_LETTER_I_WITH_ACUTE,
    LATIN_CAPITAL_LETTER_I_WITH_CIRCUMFLEX, LATIN_CAPITAL_LETTER_I_WITH_DIAERESIS,
    LATIN_CAPITAL_LETTER_ETH, LATIN_CAPITAL_LETTER_N_WITH_TILDE, LATIN_CAPITAL_LETTER_O_WITH_GRAVE,
    LATIN_CAPITAL_LETTER_O_WITH_ACUTE, LATIN_CAPITAL_LETTER_O_WITH_CIRCUMFLEX,
    LATIN_CAPITAL_LETTER_O_WITH_TILDE, LATIN_CAPITAL_LETTER_O_WITH_DIAERESIS, MULTIPLICATION_SIGN,
    LATIN_CAPITAL_LETTER_O_WITH_STROKE, LATIN_CAPITAL_LETTER_U_WITH_GRAVE,
    LATIN_CAPITAL_LETTER_U_WITH_ACUTE, LATIN_CAPITAL_LETTER_U_WITH_CIRCUMFLEX,
    LATIN_CAPITAL_LETTER_U_WITH_DIAERESIS, LATIN_CAPITAL_LETTER_Y_WITH_ACUTE,
    LATIN_CAPITAL_LETTER_THORN, LATIN_SMALL_LETTER_SHARP_S, LATIN_SMALL_LETTER_A_WITH_GRAVE,
    LATIN_SMALL_LETTER_A_WITH_ACUTE, LATIN_SMALL_LETTER_A_WITH_CIRCUMFLEX,
    LATIN_SMALL_LETTER_A_WITH_TILDE, LATIN_SMALL_LETTER_A_WITH_DIAERESIS,
    LATIN_SMALL_LETTER_A_WITH_RING_ABOVE, LATIN_SMALL_LETTER_AE, LATIN_SMALL_LETTER_C_WITH_CEDILLA,
    LATIN_SMALL_LETTER_E_WITH_GRAVE, LATIN_SMALL_LETTER_E_WITH_ACUTE,
    LATIN_SMALL_LETTER_E_WITH_CIRCUMFLEX, LATIN_SMALL_LETTER_E_WITH_DIAERESIS,
    LATIN_SMALL_LETTER_I_WITH_GRAVE, LATIN_SMALL_LETTER_I_WITH_ACUTE,
    LATIN_SMALL_LETTER_I_WITH_CIRCUMFLEX, LATIN_SMALL_LETTER_I_WITH_DIAERESIS,
    LATIN_SMALL_LETTER_ETH, LATIN_SMALL_LETTER_N_WITH_TILDE, LATIN_SMALL_LETTER_O_WITH_GRAVE,
    LATIN_SMALL_LETTER_O_WITH_ACUTE, LATIN_SMALL_LETTER_O_WITH_CIRCUMFLEX,
    LATIN_SMALL_LETTER_O_WITH_TILDE, LATIN_SMALL_LETTER_O_WITH_DIAERESIS, DIVISION_SIGN,
    LATIN_SMALL_LETTER_O_WITH_STROKE, LATIN_SMALL_LETTER_U_WITH_GRAVE,
    LATIN_SMALL_LETTER_U_WITH_ACUTE, LATIN_SMALL_LETTER_U_WITH_CIRCUMFLEX,
    LATIN_SMALL_LETTER_U_WITH_DIAERESIS, LATIN_SMALL_LETTER_Y_WITH_ACUTE, LATIN_SMALL_LETTER_THORN,
    LATIN_SMALL_LETTER_Y_WITH_DIAERESIS,
};

verus! {

/// The character of a byte: the scalar value equal to the ordinal.
pub open spec fn ord_to_char(o: u8) -> char {
    o as char
}

/// The byte of a character: its scalar value where that is below 256, and
/// none for every other character.
pub open spec fn char_to_ord(c: char) -> Option<u8> {
    if (c as u32) < 256 {
        Some(c as u8)
    } else {
        None
    }
}

/// Whether a character is one of the 256 that have a byte.
pub open spec fn is_mapped(c: char) -> bool {
    char_to_ord(c) is Some
}

/// Returns the character represented by the ASCII ordinal value.
pub fn ascii_ord_to_char(o: u8) -> (c: char)
    ensures
        c == ord_to_char(o),
        char_to_ord(c) == Some(o),
{
    o as char
}

/// Returns the character represented by the ASCII ordinal value.
pub fn ascii_ord_ref_to_char(o: &u8) -> (c: char)
    ensures
        c == ord_to_char(*o),
        char_to_ord(c) == Some(*o),
{
    ascii_ord_to_char(*o)
}

/// Returns the ASCII ordinal value represented by the character, or `None` if
/// the character is not ASCII.
pub fn char_to_ascii_ord(c: char) -> (r: Option<u8>)
    ensures
        r == char_to_ord(c),
        r matches Some(o) ==> ord_to_char(o) == c,
{
    match c {
        '\u{0000}' => Some(NULL),
        '\u{0001}' => Some(SOH),
        '\u{0002}' => Some(STX),
        '\u{0003}' => Some(ETX),
        '\u{0004}' => Some(EOT),
        '\u{0005}' => Some(ENQ),
        '\u{0006}' => Some(ACK),
        '\u{0007}' => Some(BEL),
        '\u{0008}' => Some(BS),
        '\u{0009}' => Some(HT),
        '\u{000A}' => Some(LF),
        '\u{000B}' => Some(VT),
        '\u{000C}' => Some(FF),
        '\u{000D}' => Some(CR),
        '\u{000E}' => Some(SO),
        '\u{000F}' => Some(SI),
        '\u{0010}' => Some(DLE),
        '\u{0011}' => Some(DC1),
        '\u{0012}' => Some(DC2),
        '\u{0013}' => Some(DC3),
        '\u{0014}' => Some(DC4),
        '\u{0015}' => Some(NAK),
        '\u{0016}' => Some(SYN),
        '\u{0017}' => Some(ETB),
        '\u{0018}' => Some(CAN),
        '\u{0019}' => Some(EM),
        '\u{001A}' => Some(SUB),
        '\u{001B}' => Some(ESC),
        '\u{001C}' => Some(FS),
        '\u{001D}' => Some(GS),
        '\u{001E}' => Some(RS),
        '\u{001F}' => Some(US),
        '\u{0020}' => Some(SPACE),
        '\u{0021}' => Some(EXCLAMATION_MARK),
        '\u{0022}' => Some(QUOTATION_MARK),
        '\u{0023}' => Some(NUMBER_SIGN),
        '\u{0024}' => Some(DOLLAR_SIGN),
        '\u{0025}' => Some(PERCENT_SIGN),
        '\u{0026}' => Some(AMPERSAND),
        '\u{0027}' => Some(APOSTROPHE),
        '\u{0028}' => Some(LEFT_PARENTHESIS),
        '\u{0029}' => Some(RIGHT_PARENTHESIS),
        '\u{002A}' => Some(ASTERISK),
        '\u{002B}' => Some(PLUS_SIGN),
        '\u{002C}' => Some(COMMA),
        '\u{002D}' => Some(HYPHEN_MINUS),
        '\u{002E}' => Some(FULL_STOP),
        '\u{002F}' => Some(SOLIDUS),
        '\u{0030}' => Some(DIGIT_ZERO),
        '\u{0031}' => Some(DIGIT_ONE),
        '\u{0032}' => Some(DIGIT_TWO),
        '\u{0033}' => Some(DIGIT_THREE),
        '\u{0034}' => Some(DIGIT_FOUR),
        '\u{0035}' => Some(DIGIT_FIVE),
        '\u{0036}' => Some(DIGIT_SIX),
        '\u{0037}' => Some(DIGIT_SEVEN),
        '\u{0038}' => Some(DIGIT_EIGHT),
        '\u{0039}' => Some(DIGIT_NINE),
        '\u{003A}' => Some(COLON),
        '\u{003B}' => Some(SEMICOLON),
        '\u{003C}' => Some(LESS_THAN_SIGN),
        '\u{003D}' => Some(EQUALS_SIGN),
        '\u{003E}' => Some(GREATER_THAN_SIGN),
        '\u{003F}' => Some(QUESTION_MARK),
        '\u{0040}' => Some(COMMERCIAL_AT),
        '\u{0041}' => Some(LATIN_CAPITAL_LETTER_A),
        '\u{0042}' => Some(LATIN_CAPITAL_LETTER_B),
        '\u{0043}' => Some(LATIN_CAPITAL_LETTER_C),
        '\u{0044}' => Some(LATIN_CAPITAL_LETTER_D),
        '\u{0045}' => Some(LATIN_CAPITAL_LETTER_E),
        '\u{0046}' => Some(LATIN_CAPITAL_LETTER_F),
        '\u{0047}' => Some(LATIN_CAPITAL_LETTER_G),
        '\u{0048}' => Some(LATIN_CAPITAL_LETTER_H),
        '\u{0049}' => Some(LATIN_CAPITAL_LETTER_I),
        '\u{004A}' => Some(LATIN_CAPITAL_LETTER_J),
        '\u{004B}' => Some(LATIN_CAPITAL_LETTER_K),
        '\u{004C}' => Some(LATIN_CAPITAL_LETTER_L),
        '\u{004D}' => Some(LATIN_CAPITAL_LETTER_M),
        '\u{004E}' => Some(LATIN_CAPITAL_LETTER_N),
        '\u{004F}' => Some(LATIN_CAPITAL_LETTER_O),
        '\u{0050}' => Some(LATIN_CAPITAL_LETTER_P),
        '\u{0051}' => Some(LATIN_CAPITAL_LETTER_Q),
        '\u{0052}' => Some(LATIN_CAPITAL_LETTER_R),
        '\u{0053}' => Some(LATIN_CAPITAL_LETTER_S),
        '\u{0054}' => Some(LATIN_CAPITAL_LETTER_T),
        '\u{0055}' => Some(LATIN_CAPITAL_LETTER_U),
        '\u{0056}' => Some(LATIN_CAPITAL_LETTER_V),
        '\u{0057}' => Some(LATIN_CAPITAL_LETTER_W),
        '\u{0058}' => Some(LATIN_CAPITAL_LETTER_X),
        '\u{0059}' => Some(LATIN_CAPITAL_LETTER_Y),
        '\u{005A}' => Some(LATIN_CAPITAL_LETTER_Z),
        '\u{005B}' => Some(LEFT_SQUARE_BRACKET),
        '\u{005C}' => Some(REVERSE_SOLIDUS),
        '\u{005D}' => Some(RIGHT_SQUARE_BRACKET),
        '\u{005E}' => Some(CIRCUMFLEX_ACCENT),
        '\u{005F}' => Some(LOW_LINE),
        '\u{0060}' => Some(GRAVE_ACCENT),
        '\u{0061}' => Some(LATIN_SMALL_LETTER_A),
        '\u{0062}' => Some(LATIN_SMALL_LETTER_B),
        '\u{0063}' => Some(LATIN_SMALL_LETTER_C),
        '\u{0064}' => Some(LATIN_SMALL_LETTER_D),
        '\u{0065}' => Some(LATIN_SMALL_LETTER_E),
        '\u{0066}' => Some(LATIN_SMALL_LETTER_F),
        '\u{0067}' => Some(LATIN_SMALL_LETTER_G),
        '\u{0068}' => Some(LATIN_SMALL_LETTER_H),
        '\u{0069}' => Some(LATIN_SMALL_LETTER_I),
        '\u{006A}' => Some(LATIN_SMALL_LETTER_J),
        '\u{006B}' => Some(LATIN_SMALL_LETTER_K),
        '\u{006C}' => Some(LATIN_SMALL_LETTER_L),
        '\u{006D}' => Some(LATIN_SMALL_LETTER_M),
        '\u{006E}' => Some(LATIN_SMALL_LETTER_N),
        '\u{006F}' => Some(LATIN_SMALL_LETTER_O),
        '\u{0070}' => Some(LATIN_SMALL_LETTER_P),
        '\u{0071}' => Some(LATIN_SMALL_LETTER_Q),
        '\u{0072}' => Some(LATIN_SMALL_LETTER_R),
        '\u{0073}' => Some(LATIN_SMALL_LETTER_S),
        '\u{0074}' => Some(LATIN_SMALL_LETTER_T),
        '\u{0075}' => Some(LATIN_SMALL_LETTER_U),
        '\u{0076}' => Some(LATIN_SMALL_LETTER_V),
        '\u{0077}' => Some(LATIN_SMALL_LETTER_W),
        '\u{0078}' => Some(LATIN_SMALL_LETTER_X),
        '\u{0079}' => Some(LATIN_SMALL_LETTER_Y),
        '\u{007A}' => Some(LATIN_SMALL_LETTER_Z),
        '\u{007B}' => Some(LEFT_CURLY_BRACKET),
        '\u{007C}' => Some(VERTICAL_LINE),
        '\u{007D}' => Some(RIGHT_CURLY_BRACKET),
        '\u{007E}' => Some(TILDE),
        '\u{007F}' => Some(DEL),
        '\u{0080}' => Some(EXT_128),
        '\u{0081}' => Some(EXT_129),
        '\u{0082}' => Some(EXT_130),
        '\u{0083}' => Some(EXT_131),
        '\u{0084}' => Some(EXT_132),
        '\u{0085}' => Some(EXT_133),
        '\u{0086}' => Some(EXT_134),
        '\u{0087}' => Some(EXT_135),
        '\u{0088}' => Some(EXT_136),
        '\u{0089}' => Some(EXT_137),
        '\u{008A}' => Some(EXT_138),
        '\u{008B}' => Some(EXT_139),
        '\u{008C}' => Some(EXT_140),
        '\u{008D}' => Some(EXT_141),
        '\u{008E}' => Some(EXT_142),
        '\u{008F}' => Some(EXT_143),
        '\u{0090}' => Some(EXT_144),
        '\u{0091}' => Some(EXT_145),
        '\u{0092}' => Some(EXT_146),
        '\u{0093}' => Some(EXT_147),
        '\u{0094}' => Some(EXT_148),
        '\u{0095}' => Some(EXT_149),
        '\u{0096}' => Some(EXT_150),
        '\u{0097}' => Some(EXT_151),
        '\u{0098}' => Some(EXT_152),
        '\u{0099}' => Some(EXT_153),
        '\u{009A}' => Some(EXT_154),
        '\u{009B}' => Some(EXT_155),
        '\u{009C}' => Some(EXT_156),
        '\u{009D}' => Some(EXT_157),
        '\u{009E}' => Some(EXT_158),
        '\u{009F}' => Some(EXT_159),
        '\u{00A0}' => Some(NO_BREAK_SPACE),
        '\u{00A1}' => Some(INVERTED_EXCLAMATION_MARK),
        '\u{00A2}' => Some(CENT_SIGN),
        '\u{00A3}' => Some(POUND_SIGN),
        '\u{00A4}' => Some(CURRENCY_SIGN),
        '\u{00A5}' => Some(YEN_SIGN),
        '\u{00A6}' => Some(BROKEN_BAR),
        '\u{00A7}' => Some(SECTION_SIGN),
        '\u{00A8}' => Some(DIAERESIS),
        '\u{00A9}' => Some(COPYRIGHT_SIGN),
        '\u{00AA}' => Some(FEMININE_ORDINAL_INDICATOR),
        '\u{00AB}' => Some(LEFT_POINTING_DOUBLE_ANGLE_QUOTATION_MARK),
        '\u{00AC}' => Some(NOT_SIGN),
        '\u{00AD}' => Some(SHY),
        '\u{00AE}' => Some(REGISTERED_SIGN),
        '\u{00AF}' => Some(MACRON),
        '\u{00B0}' => Some(DEGREE_SIGN),
        '\u{00B1}' => Some(PLUS_MINUS_SIGN),
        '\u{00B2}' => Some(SUPERSCRIPT_TWO),
        '\u{00B3}' => Some(SUPERSCRIPT_THREE),
        '\u{00B4}' => Some(ACUTE_ACCENT),
        '\u{00B5}' => Some(MICRO_SIGN),
        '\u{00B6}' => Some(PILCROW_SIGN),
        '\u{00B7}' => Some(MIDDLE_DOT),
        '\u{00B8}' => Some(CEDILLA),
        '\u{00B9}' => Some(SUPERSCRIPT_ONE),
        '\u{00BA}' => Some(MASCULINE_ORDINAL_INDICATOR),
        '\u{00BB}' => Some(RIGHT_POINTING_DOUBLE_ANGLE_QUOTATION_MARK),
        '\u{00BC}' => Some(VULGAR_FRACTION_ONE_QUARTER),
        '\u{00BD}' => Some(VULGAR_FRACTION_ONE_HALF),
        '\u{00BE}' => Some(VULGAR_FRACTION_THREE_QUARTERS),
        '\u{00BF}' => Some(INVERTED_QUESTION_MARK),
        '\u{00C0}' => Some(LATIN_CAPITAL_LETTER_A_WITH_GRAVE),
        '\u{00C1}' => Some(LATIN_CAPITAL_LETTER_A_WITH_ACUTE),
        '\u{00C2}' => Some(LATIN_CAPITAL_LETTER_A_WITH_CIRCUMFLEX),
        '\u{00C3}' => Some(LATIN_CAPITAL_LETTER_A_WITH_TILDE),
        '\u{00C4}' => Some(LATIN_CAPITAL_LETTER_A_WITH_DIAERESIS),
        '\u{00C5}' => Some(LATIN_CAPITAL_LETTER_A_WITH_RING_ABOVE),
        '\u{00C6}' => Some(LATIN_CAPITAL_LETTER_AE),
        '\u{00C7}' => Some(LATIN_CAPITAL_LETTER_C_WITH_CEDILLA),
        '\u{00C8}' => Some(LATIN_CAPITAL_LETTER_E_WITH_GRAVE),
        '\u{00C9}' => Some(LATIN_CAPITAL_LETTER_E_WITH_ACUTE),
        '\u{00CA}' => Some(LATIN_CAPITAL_LETTER_E_WITH_CIRCUMFLEX),
        '\u{00CB}' => Some(LATIN_CAPITAL_LETTER_E_WITH_DIAERESIS),
        '\u{00CC}' => Some(LATIN_CAPITAL_LETTER_I_WITH_GRAVE),
        '\u{00CD}' => Some(LATIN_CAPITAL_LETTER_I_WITH_ACUTE),
        '\u{00CE}' => Some(LATIN_CAPITAL_LETTER_I_WITH_CIRCUMFLEX),
        '\u{00CF}' => Some(LATIN_CAPITAL_LETTER_I_WITH_DIAERESIS),
        '\u{00D0}' => Some(LATIN_CAPITAL_LETTER_ETH),
        '\u{00D1}' => Some(LATIN_CAPITAL_LETTER_N_WITH_TILDE),
        '\u{00D2}' => Some(LATIN_CAPITAL_LETTER_O_WITH_GRAVE),
        '\u{00D3}' => Some(LATIN_CAPITAL_LETTER_O_WITH_ACUTE),
        '\u{00D4}' => Some(LATIN_CAPITAL_LETTER_O_WITH_CIRCUMFLEX),
        '\u{00D5}' => Some(LATIN_CAPITAL_LETTER_O_WITH_TILDE),
        '\u{00D6}' => Some(LATIN_CAPITAL_LETTER_O_WITH_DIAERESIS),
        '\u{00D7}' => Some(MULTIPLICATION_SIGN),
        '\u{00D8}' => Some(LATIN_CAPITAL_LETTER_O_WITH_STROKE),
        '\u{00D9}' => Some(LATIN_CAPITAL_LETTER_U_WITH_GRAVE),
        '\u{00DA}' => Some(LATIN_CAPITAL_LETTER_U_WITH_ACUTE),
        '\u{00DB}' => Some(LATIN_CAPITAL_LETTER_U_WITH_CIRCUMFLEX),
        '\u{00DC}' => Some(LATIN_CAPITAL_LETTER_U_WITH_DIAERESIS),
        '\u{00DD}' => Some(LATIN_CAPITAL_LETTER_Y_WITH_ACUTE),
        '\u{00DE}' => Some(LATIN_CAPITAL_LETTER_THORN),
        '\u{00DF}' => Some(LATIN_SMALL_LETTER_SHARP_S),
        '\u{00E0}' => Some(LATIN_SMALL_LETTER_A_WITH_GRAVE),
        '\u{00E1}' => Some(LATIN_SMALL_LETTER_A_WITH_ACUTE),
        '\u{00E2}' => Some(LATIN_SMALL_LETTER_A_WITH_CIRCUMFLEX),
        '\u{00E3}' => Some(LATIN_SMALL_LETTER_A_WITH_TILDE),
        '\u{00E4}' => Some(LATIN_SMALL_LETTER_A_WITH_DIAERESIS),
        '\u{00E5}' => Some(LATIN_SMALL_LETTER_A_WITH_RING_ABOVE),
        '\u{00E6}' => Some(LATIN_SMALL_LETTER_AE),
        '\u{00E7}' => Some(LATIN_SMALL_LETTER_C_WITH_CEDILLA),
        '\u{00E8}' => Some(LATIN_SMALL_LETTER_E_WITH_GRAVE),
        '\u{00E9}' => Some(LATIN_SMALL_LETTER_E_WITH_ACUTE),
        '\u{00EA}' => Some(LATIN_SMALL_LETTER_E_WITH_CIRCUMFLEX),
        '\u{00EB}' => Some(LATIN_SMALL_LETTER_E_WITH_DIAERESIS),
        '\u{00EC}' => Some(LATIN_SMALL_LETTER_I_WITH_GRAVE),
        '\u{00ED}' => Some(LATIN_SMALL_LETTER_I_WITH_ACUTE),
        '\u{00EE}' => Some(LATIN_SMALL_LETTER_I_WITH_CIRCUMFLEX),
        '\u{00EF}' => Some(LATIN_SMALL_LETTER_I_WITH_DIAERESIS),
        '\u{00F0}' => Some(LATIN_SMALL_LETTER_ETH),
        '\u{00F1}' => Some(LATIN_SMALL_LETTER_N_WITH_TILDE),
        '\u{00F2}' => Some(LATIN_SMALL_LETTER_O_WITH_GRAVE),
        '\u{00F3}' => Some(LATIN_SMALL_LETTER_O_WITH_ACUTE),
        '\u{00F4}' => Some(LATIN_SMALL_LETTER_O_WITH_CIRCUMFLEX),
        '\u{00F5}' => Some(LATIN_SMALL_LETTER_O_WITH_TILDE),
        '\u{00F6}' => Some(LATIN_SMALL_LETTER_O_WITH_DIAERESIS),
        '\u{00F7}' => Some(DIVISION_SIGN),
        '\u{00F8}' => Some(LATIN_SMALL_LETTER_O_WITH_STROKE),
        '\u{00F9}' => Some(LATIN_SMALL_LETTER_U_WITH_GRAVE),
        '\u{00FA}' => Some(LATIN_SMALL_LETTER_U_WITH_ACUTE),
        '\u{00FB}' => Some(LATIN_SMALL_LETTER_U_WITH_CIRCUMFLEX),
        '\u{00FC}' => Some(LATIN_SMALL_LETTER_U_WITH_DIAERESIS),
        '\u{00FD}' => Some(LATIN_SMALL_LETTER_Y_WITH_ACUTE),
        '\u{00FE}' => Some(LATIN_SMALL_LETTER_THORN),
        '\u{00FF}' => Some(LATIN_SMALL_LETTER_Y_WITH_DIAERESIS),
        _ => None,
    }
}

/// Returns the ASCII ordinal value represented by the character, or `None` if
/// the character is not ASCII.
pub fn char_ref_to_ascii_ord(c: &char) -> (r: Option<u8>)
    ensures
        r == char_to_ord(*c),
        r matches Some(o) ==> ord_to_char(o) == *c,
{
    char_to_ascii_ord(*c)
}

/// Translating a byte to its character and back gives the byte again.
pub proof fn lemma_ord_round_trip(b: u8)
    ensures
        char_to_ord(ord_to_char(b)) == Some(b),
{
}

/// Translating a mapped character to its byte and back gives the character
/// again.
pub proof fn lemma_char_round_trip(c: char)
    requires
        is_mapped(c),
    ensures
        ord_to_char(char_to_ord(c)->0) == c,
{
}

/// Two characters with the same byte are the same character, and two bytes
/// with the same character are the same byte: the table is one to one.
pub proof fn lemma_table_injective(c: char, d: char, a: u8, b: u8)
    ensures
        is_mapped(c) && char_to_ord(c) == char_to_ord(d) ==> c == d,
        ord_to_char(a) == ord_to_char(b) ==> a == b,
{
}

} // verus!

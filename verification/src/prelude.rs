//! The names of the library in one place.

pub use crate::ascii_common::ReadLineResult;
pub use crate::ascii_consts::{
    ACK, ACUTE_ACCENT, AMPERSAND, APOSTROPHE, ASCII_CTRL_PRINTABLES, ASCII_EXTENDED_FIRST,
    ASCII_EXTENDED_LAST, ASCII_PRINTABLE_FIRST, ASCII_PRINTABLE_LAST, ASTERISK, BEL, BROKEN_BAR,
    BS, CAN, CEDILLA, CENT_SIGN, CIRCUMFLEX_ACCENT, COLON, COMMA, COMMERCIAL_AT, COPYRIGHT_SIGN,
    CR, CURRENCY_SIGN, DC1, DC2, DC3, DC4, DEGREE_SIGN, DEL, DIAERESIS, DIGIT_EIGHT, DIGIT_FIVE,
    DIGIT_FOUR, DIGIT_NINE, DIGIT_ONE, DIGIT_SEVEN, DIGIT_SIX, DIGIT_THREE, DIGIT_TWO, DIGIT_ZERO,
    DIVISION_SIGN, DLE, DOLLAR_SIGN, EM, ENQ, EOT, EQUALS_SIGN, ESC, ETB, ETX, EXCLAMATION_MARK,
    EXT_128, EXT_129, EXT_130, EXT_131, EXT_132, EXT_133, EXT_134, EXT_135, EXT_136, EXT_137,
    EXT_138, EXT_139, EXT_140, EXT_141, EXT_142, EXT_143, EXT_144, EXT_145, EXT_146, EXT_147,
    EXT_148, EXT_149, EXT_150, EXT_151, EXT_152, EXT_153, EXT_154, EXT_155, EXT_156, EXT_157,
    EXT_158, EXT_159, FEMININE_ORDINAL_INDICATOR, FF, FS, FULL_STOP, GRAVE_ACCENT,
    GREATER_THAN_SIGN, GS, HT, HYPHEN_MINUS, INVERTED_EXCLAMATION_MARK, INVERTED_QUESTION_MARK,
    LATIN_CAPITAL_LETTER_A, LATIN_CAPITAL_LETTER_AE, LATIN_CAPITAL_LETTER_A_WITH_ACUTE,
    LATIN_CAPITAL_LETTER_A_WITH_CIRCUMFLEX, LATIN_CAPITAL_LETTER_A_WITH_DIAERESIS,
    LATIN_CAPITAL_LETTER_A_WITH_GRAVE, LATIN_CAPITAL_LETTER_A_WITH_RING_ABOVE,
    LATIN_CAPITAL_LETTER_A_WITH_TILDE, LATIN_CAPITAL_LETTER_B, LATIN_CAPITAL_LETTER_C,
    LATIN_CAPITAL_LETTER_C_WITH_CEDILLA, LATIN_CAPITAL_LETTER_D, LATIN_CAPITAL_LETTER_E,
    LATIN_CAPITAL_LETTER_ETH, LATIN_CAPITAL_LETTER_E_WITH_ACUTE,
    LATIN_CAPITAL_LETTER_E_WITH_CIRCUMFLEX, LATIN_CAPITAL_LETTER_E_WITH_DIAERESIS,
    LATIN_CAPITAL_LETTER_E_WITH_GRAVE, LATIN_CAPITAL_LETTER_F, LATIN_CAPITAL_LETTER_G,
    LATIN_CAPITAL_LETTER_H, LATIN_CAPITAL_LETTER_I, LATIN_CAPITAL_LETTER_I_WITH_ACUTE,
    LATIN_CAPITAL_LETTER_I_WITH_CIRCUMFLEX, LATIN_CAPITAL_LETTER_I_WITH_DIAERESIS,
    LATIN_CAPITAL_LETTER_I_WITH_GRAVE, LATIN_CAPITAL_LETTER_J, LATIN_CAPITAL_LETTER_K,
    LATIN_CAPITAL_LETTER_L, LATIN_CAPITAL_LETTER_M, LATIN_CAPITAL_LETTER_N,
    LATIN_CAPITAL_LETTER_N_WITH_TILDE, LATIN_CAPITAL_LETTER_O, LATIN_CAPITAL_LETTER_O_WITH_ACUTE,
    LATIN_CAPITAL_LETTER_O_WITH_CIRCUMFLEX, LATIN_CAPITAL_LETTER_O_WITH_DIAERESIS,
    LATIN_CAPITAL_LETTER_O_WITH_GRAVE, LATIN_CAPITAL_LETTER_O_WITH_STROKE,
    LATIN_CAPITAL_LETTER_O_WITH_TILDE, LATIN_CAPITAL_LETTER_P, LATIN_CAPITAL_LETTER_Q,
    LATIN_CAPITAL_LETTER_R, LATIN_CAPITAL_LETTER_S, LATIN_CAPITAL_LETTER_T,
    LATIN_CAPITAL_LETTER_THORN, LATIN_CAPITAL_LETTER_U, LATIN_CAPITAL_LETTER_U_WITH_ACUTE,
    LATIN_CAPITAL_LETTER_U_WITH_CIRCUMFLEX, LATIN_CAPITAL_LETTER_U_WITH_DIAERESIS,
    LATIN_CAPITAL_LETTER_U_WITH_GRAVE, LATIN_CAPITAL_LETTER_V, LATIN_CAPITAL_LETTER_W,
    LATIN_CAPITAL_LETTER_X, LATIN_CAPITAL_LETTER_Y, LATIN_CAPITAL_LETTER_Y_WITH_ACUTE,
    LATIN_CAPITAL_LETTER_Z, LATIN_SMALL_LETTER_A, LATIN_SMALL_LETTER_AE,
    LATIN_SMALL_LETTER_A_WITH_ACUTE, LATIN_SMALL_LETTER_A_WITH_CIRCUMFLEX,
    LATIN_SMALL_LETTER_A_WITH_DIAERESIS, LATIN_SMALL_LETTER_A_WITH_GRAVE,
    LATIN_SMALL_LETTER_A_WITH_RING_ABOVE, LATIN_SMALL_LETTER_A_WITH_TILDE, LATIN_SMALL_LETTER_B,
    LATIN_SMALL_LETTER_C, LATIN_SMALL_LETTER_C_WITH_CEDILLA, LATIN_SMALL_LETTER_D,
    LATIN_SMALL_LETTER_E, LATIN_SMALL_LETTER_ETH, LATIN_SMALL_LETTER_E_WITH_ACUTE,
    LATIN_SMALL_LETTER_E_WITH_CIRCUMFLEX, LATIN_SMALL_LETTER_E_WITH_DIAERESIS,
    LATIN_SMALL_LETTER_E_WITH_GRAVE, LATIN_SMALL_LETTER_F, LATIN_SMALL_LETTER_G,
    LATIN_SMALL_LETTER_H, LATIN_SMALL_LETTER_I, LATIN_SMALL_LETTER_I_WITH_ACUTE,
    LATIN_SMALL_LETTER_I_WITH_CIRCUMFLEX, LATIN_SMALL_LETTER_I_WITH_DIAERESIS,
    LATIN_SMALL_LETTER_I_WITH_GRAVE, LATIN_SMALL_LETTER_J, LATIN_SMALL_LETTER_K,
    LATIN_SMALL_LETTER_L, LATIN_SMALL_LETTER_M, LATIN_SMALL_LETTER_N,
    LATIN_SMALL_LETTER_N_WITH_TILDE, LATIN_SMALL_LETTER_O, LATIN_SMALL_LETTER_O_WITH_ACUTE,
    LATIN_SMALL_LETTER_O_WITH_CIRCUMFLEX, LATIN_SMALL_LETTER_O_WITH_DIAERESIS,
    LATIN_SMALL_LETTER_O_WITH_GRAVE, LATIN_SMALL_LETTER_O_WITH_STROKE,
    LATIN_SMALL_LETTER_O_WITH_TILDE, LATIN_SMALL_LETTER_P, LATIN_SMALL_LETTER_Q,
    LATIN_SMALL_LETTER_R, LATIN_SMALL_LETTER_S, LATIN_SMALL_LETTER_SHARP_S, LATIN_SMALL_LETTER_T,
    LATIN_SMALL_LETTER_THORN, LATIN_SMALL_LETTER_U, LATIN_SMALL_LETTER_U_WITH_ACUTE,
    LATIN_SMALL_LETTER_U_WITH_CIRCUMFLEX, LATIN_SMALL_LETTER_U_WITH_DIAERESIS,
    LATIN_SMALL_LETTER_U_WITH_GRAVE, LATIN_SMALL_LETTER_V, LATIN_SMALL_LETTER_W,
    LATIN_SMALL_LETTER_X, LATIN_SMALL_LETTER_Y, LATIN_SMALL_LETTER_Y_WITH_ACUTE,
    LATIN_SMALL_LETTER_Y_WITH_DIAERESIS, LATIN_SMALL_LETTER_Z, LEFT_CURLY_BRACKET,
    LEFT_PARENTHESIS, LEFT_POINTING_DOUBLE_ANGLE_QUOTATION_MARK, LEFT_SQUARE_BRACKET,
    LESS_THAN_SIGN, LF, LOW_LINE, MACRON, MASCULINE_ORDINAL_INDICATOR, MICRO_SIGN, MIDDLE_DOT,
    MULTIPLICATION_SIGN, NAK, NOT_SIGN, NO_BREAK_SPACE, NULL, NUMBER_SIGN, PERCENT_SIGN,
    PILCROW_SIGN, PLUS_MINUS_SIGN, PLUS_SIGN, POUND_SIGN, QUESTION_MARK, QUOTATION_MARK,
    REGISTERED_SIGN, REVERSE_SOLIDUS, RIGHT_CURLY_BRACKET, RIGHT_PARENTHESIS,
    RIGHT_POINTING_DOUBLE_ANGLE_QUOTATION_MARK, RIGHT_SQUARE_BRACKET, RS, SECTION_SIGN, SEMICOLON,
    SHY, SI, SO, SOH, SOLIDUS, SPACE, STX, SUB, SUPERSCRIPT_ONE, SUPERSCRIPT_THREE,
    SUPERSCRIPT_TWO, SYN, TILDE, US, VERTICAL_LINE, VT, VULGAR_FRACTION_ONE_HALF,
    VULGAR_FRACTION_ONE_QUARTER, VULGAR_FRACTION_THREE_QUARTERS, YEN_SIGN,
};
pub use crate::ascii_group::{AsciiGroup, AsciiGroupIter};
pub use crate::ascii_stream::{AsciiStreamReader, AsciiStreamWriter, IntoInnerFailure};
pub use crate::ascii_string::{AsciiCharIter, AsciiString};
pub use crate::ascii_traits::{AsciiOrdToChar, CharToAsciiOrd};
pub use crate::ascii_translators::{
    ascii_ord_ref_to_char, ascii_ord_to_char, char_ref_to_ascii_ord, char_to_ascii_ord,
};

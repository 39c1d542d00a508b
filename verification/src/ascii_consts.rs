//! Names for the 256 byte ordinals of the extended ASCII page, and the
//! fixed sets that byte classification is defined by.

use vstd::prelude::*;

verus! {

/// The control bytes that are conventionally rendered: horizontal tab, line
/// feed and carriage return.
pub const ASCII_CTRL_PRINTABLES: [u8; 3] = [HT, LF, CR];

/// The first of the visible ASCII bytes, the space.
pub const ASCII_PRINTABLE_FIRST: u8 = 32;

/// The last of the visible ASCII bytes, the tilde.
pub const ASCII_PRINTABLE_LAST: u8 = 126;

/// The first byte of the upper half of the page.
pub const ASCII_EXTENDED_FIRST: u8 = 128;

/// The last byte of the upper half of the page.
pub const ASCII_EXTENDED_LAST: u8 = 255;

// The ordinals by name, in ascending order.
pub const NULL: u8 = 0;
pub const SOH: u8 = 1;
pub const STX: u8 = 2;
pub const ETX: u8 = 3;
pub const EOT: u8 = 4;
pub const ENQ: u8 = 5;
pub const ACK: u8 = 6;
pub const BEL: u8 = 7;
pub const BS: u8 = 8;
pub const HT: u8 = 9;
pub const LF: u8 = 10;
pub const VT: u8 = 11;
pub const FF: u8 = 12;
pub const CR: u8 = 13;
pub const SO: u8 = 14;
pub const SI: u8 = 15;
pub const DLE: u8 = 16;
pub const DC1: u8 = 17;
pub const DC2: u8 = 18;
pub const DC3: u8 = 19;
pub const DC4: u8 = 20;
pub const NAK: u8 = 21;
pub const SYN: u8 = 22;
pub const ETB: u8 = 23;
pub const CAN: u8 = 24;
pub const EM: u8 = 25;
pub const SUB: u8 = 26;
pub const ESC: u8 = 27;
pub const FS: u8 = 28;
pub const GS: u8 = 29;
pub const RS: u8 = 30;
pub const US: u8 = 31;
pub const SPACE: u8 = 32;
pub const EXCLAMATION_MARK: u8 = 33;
pub const QUOTATION_MARK: u8 = 34;
pub const NUMBER_SIGN: u8 = 35;
pub const DOLLAR_SIGN: u8 = 36;
pub const PERCENT_SIGN: u8 = 37;
pub const AMPERSAND: u8 = 38;
pub const APOSTROPHE: u8 = 39;
pub const LEFT_PARENTHESIS: u8 = 40;
pub const RIGHT_PARENTHESIS: u8 = 41;
pub const ASTERISK: u8 = 42;
pub const PLUS_SIGN: u8 = 43;
pub const COMMA: u8 = 44;
pub const HYPHEN_MINUS: u8 = 45;
pub const FULL_STOP: u8 = 46;
pub const SOLIDUS: u8 = 47;
pub const DIGIT_ZERO: u8 = 48;
pub const DIGIT_ONE: u8 = 49;
pub const DIGIT_TWO: u8 = 50;
pub const DIGIT_THREE: u8 = 51;
pub const DIGIT_FOUR: u8 = 52;
pub const DIGIT_FIVE: u8 = 53;
pub const DIGIT_SIX: u8 = 54;
pub const DIGIT_SEVEN: u8 = 55;
pub const DIGIT_EIGHT: u8 = 56;
pub const DIGIT_NINE: u8 = 57;
pub const COLON: u8 = 58;
pub const SEMICOLON: u8 = 59;
pub const LESS_THAN_SIGN: u8 = 60;
pub const EQUALS_SIGN: u8 = 61;
pub const GREATER_THAN_SIGN: u8 = 62;
pub const QUESTION_MARK: u8 = 63;
pub const COMMERCIAL_AT: u8 = 64;
pub const LATIN_CAPITAL_LETTER_A: u8 = 65;
pub const LATIN_CAPITAL_LETTER_B: u8 = 66;
pub const LATIN_CAPITAL_LETTER_C: u8 = 67;
pub const LATIN_CAPITAL_LETTER_D: u8 = 68;
pub const LATIN_CAPITAL_LETTER_E: u8 = 69;
pub const LATIN_CAPITAL_LETTER_F: u8 = 70;
pub const LATIN_CAPITAL_LETTER_G: u8 = 71;
pub const LATIN_CAPITAL_LETTER_H: u8 = 72;
pub const LATIN_CAPITAL_LETTER_I: u8 = 73;
pub const LATIN_CAPITAL_LETTER_J: u8 = 74;
pub const LATIN_CAPITAL_LETTER_K: u8 = 75;
pub const LATIN_CAPITAL_LETTER_L: u8 = 76;
pub const LATIN_CAPITAL_LETTER_M: u8 = 77;
pub const LATIN_CAPITAL_LETTER_N: u8 = 78;
pub const LATIN_CAPITAL_LETTER_O: u8 = 79;
pub const LATIN_CAPITAL_LETTER_P: u8 = 80;
pub const LATIN_CAPITAL_LETTER_Q: u8 = 81;
pub const LATIN_CAPITAL_LETTER_R: u8 = 82;
pub const LATIN_CAPITAL_LETTER_S: u8 = 83;
pub const LATIN_CAPITAL_LETTER_T: u8 = 84;
pub const LATIN_CAPITAL_LETTER_U: u8 = 85;
pub const LATIN_CAPITAL_LETTER_V: u8 = 86;
pub const LATIN_CAPITAL_LETTER_W: u8 = 87;
pub const LATIN_CAPITAL_LETTER_X: u8 = 88;
pub const LATIN_CAPITAL_LETTER_Y: u8 = 89;
pub const LATIN_CAPITAL_LETTER_Z: u8 = 90;
pub const LEFT_SQUARE_BRACKET: u8 = 91;
pub const REVERSE_SOLIDUS: u8 = 92;
pub const RIGHT_SQUARE_BRACKET: u8 = 93;
pub const CIRCUMFLEX_ACCENT: u8 = 94;
pub const LOW_LINE: u8 = 95;
pub const GRAVE_ACCENT: u8 = 96;
pub const LATIN_SMALL_LETTER_A: u8 = 97;
pub const LATIN_SMALL_LETTER_B: u8 = 98;
pub const LATIN_SMALL_LETTER_C: u8 = 99;
pub const LATIN_SMALL_LETTER_D: u8 = 100;
pub const LATIN_SMALL_LETTER_E: u8 = 101;
pub const LATIN_SMALL_LETTER_F: u8 = 102;
pub const LATIN_SMALL_LETTER_G: u8 = 103;
pub const LATIN_SMALL_LETTER_H: u8 = 104;
pub const LATIN_SMALL_LETTER_I: u8 = 105;
pub const LATIN_SMALL_LETTER_J: u8 = 106;
pub const LATIN_SMALL_LETTER_K: u8 = 107;
pub const LATIN_SMALL_LETTER_L: u8 = 108;
pub const LATIN_SMALL_LETTER_M: u8 = 109;
pub const LATIN_SMALL_LETTER_N: u8 = 110;
pub const LATIN_SMALL_LETTER_O: u8 = 111;
pub const LATIN_SMALL_LETTER_P: u8 = 112;
pub const LATIN_SMALL_LETTER_Q: u8 = 113;
pub const LATIN_SMALL_LETTER_R: u8 = 114;
pub const LATIN_SMALL_LETTER_S: u8 = 115;
pub const LATIN_SMALL_LETTER_T: u8 = 116;
pub const LATIN_SMALL_LETTER_U: u8 = 117;
pub const LATIN_SMALL_LETTER_V: u8 = 118;
pub const LATIN_SMALL_LETTER_W: u8 = 119;
pub const LATIN_SMALL_LETTER_X: u8 = 120;
pub const LATIN_SMALL_LETTER_Y: u8 = 121;
pub const LATIN_SMALL_LETTER_Z: u8 = 122;
pub const LEFT_CURLY_BRACKET: u8 = 123;
pub const VERTICAL_LINE: u8 = 124;
pub const RIGHT_CURLY_BRACKET: u8 = 125;
pub const TILDE: u8 = 126;
pub const DEL: u8 = 127;
pub const EXT_128: u8 = 128;
pub const EXT_129: u8 = 129;
pub const EXT_130: u8 = 130;
pub const EXT_131: u8 = 131;
pub const EXT_132: u8 = 132;
pub const EXT_133: u8 = 133;
pub const EXT_134: u8 = 134;
pub const EXT_135: u8 = 135;
pub const EXT_136: u8 = 136;
pub const EXT_137: u8 = 137;
pub const EXT_138: u8 = 138;
pub const EXT_139: u8 = 139;
pub const EXT_140: u8 = 140;
pub const EXT_141: u8 = 141;
pub const EXT_142: u8 = 142;
pub const EXT_143: u8 = 143;
pub const EXT_144: u8 = 144;
pub const EXT_145: u8 = 145;
pub const EXT_146: u8 = 146;
pub const EXT_147: u8 = 147;
pub const EXT_148: u8 = 148;
pub const EXT_149: u8 = 149;
pub const EXT_150: u8 = 150;
pub const EXT_151: u8 = 151;
pub const EXT_152: u8 = 152;
pub const EXT_153: u8 = 153;
pub const EXT_154: u8 = 154;
pub const EXT_155: u8 = 155;
pub const EXT_156: u8 = 156;
pub const EXT_157: u8 = 157;
pub const EXT_158: u8 = 158;
pub const EXT_159: u8 = 159;
pub const NO_BREAK_SPACE: u8 = 160;
pub const INVERTED_EXCLAMATION_MARK: u8 = 161;
pub const CENT_SIGN: u8 = 162;
pub const POUND_SIGN: u8 = 163;
pub const CURRENCY_SIGN: u8 = 164;
pub const YEN_SIGN: u8 = 165;
pub const BROKEN_BAR: u8 = 166;
pub const SECTION_SIGN: u8 = 167;
pub const DIAERESIS: u8 = 168;
pub const COPYRIGHT_SIGN: u8 = 169;
pub const FEMININE_ORDINAL_INDICATOR: u8 = 170;
pub const LEFT_POINTING_DOUBLE_ANGLE_QUOTATION_MARK: u8 = 171;
pub const NOT_SIGN: u8 = 172;
pub const SHY: u8 = 173;
pub const REGISTERED_SIGN: u8 = 174;
pub const MACRON: u8 = 175;
pub const DEGREE_SIGN: u8 = 176;
pub const PLUS_MINUS_SIGN: u8 = 177;
pub const SUPERSCRIPT_TWO: u8 = 178;
pub const SUPERSCRIPT_THREE: u8 = 179;
pub const ACUTE_ACCENT: u8 = 180;
pub const MICRO_SIGN: u8 = 181;
pub const PILCROW_SIGN: u8 = 182;
pub const MIDDLE_DOT: u8 = 183;
pub const CEDILLA: u8 = 184;
pub const SUPERSCRIPT_ONE: u8 = 185;
pub const MASCULINE_ORDINAL_INDICATOR: u8 = 186;
pub const RIGHT_POINTING_DOUBLE_ANGLE_QUOTATION_MARK: u8 = 187;
pub const VULGAR_FRACTION_ONE_QUARTER: u8 = 188;
pub const VULGAR_FRACTION_ONE_HALF: u8 = 189;
pub const VULGAR_FRACTION_THREE_QUARTERS: u8 = 190;
pub const INVERTED_QUESTION_MARK: u8 = 191;
pub const LATIN_CAPITAL_LETTER_A_WITH_GRAVE: u8 = 192;
pub const LATIN_CAPITAL_LETTER_A_WITH_ACUTE: u8 = 193;
pub const LATIN_CAPITAL_LETTER_A_WITH_CIRCUMFLEX: u8 = 194;
pub const LATIN_CAPITAL_LETTER_A_WITH_TILDE: u8 = 195;
pub const LATIN_CAPITAL_LETTER_A_WITH_DIAERESIS: u8 = 196;
pub const LATIN_CAPITAL_LETTER_A_WITH_RING_ABOVE: u8 = 197;
pub const LATIN_CAPITAL_LETTER_AE: u8 = 198;
pub const LATIN_CAPITAL_LETTER_C_WITH_CEDILLA: u8 = 199;
pub const LATIN_CAPITAL_LETTER_E_WITH_GRAVE: u8 = 200;
pub const LATIN_CAPITAL_LETTER_E_WITH_ACUTE: u8 = 201;
pub const LATIN_CAPITAL_LETTER_E_WITH_CIRCUMFLEX: u8 = 202;
pub const LATIN_CAPITAL_LETTER_E_WITH_DIAERESIS: u8 = 203;
pub const LATIN_CAPITAL_LETTER_I_WITH_GRAVE: u8 = 204;
pub const LATIN_CAPITAL_LETTER_I_WITH_ACUTE: u8 = 205;
pub const LATIN_CAPITAL_LETTER_I_WITH_CIRCUMFLEX: u8 = 206;
pub const LATIN_CAPITAL_LETTER_I_WITH_DIAERESIS: u8 = 207;
pub const LATIN_CAPITAL_LETTER_ETH: u8 = 208;
pub const LATIN_CAPITAL_LETTER_N_WITH_TILDE: u8 = 209;
pub const LATIN_CAPITAL_LETTER_O_WITH_GRAVE: u8 = 210;
pub const LATIN_CAPITAL_LETTER_O_WITH_ACUTE: u8 = 211;
pub const LATIN_CAPITAL_LETTER_O_WITH_CIRCUMFLEX: u8 = 212;
pub const LATIN_CAPITAL_LETTER_O_WITH_TILDE: u8 = 213;
pub const LATIN_CAPITAL_LETTER_O_WITH_DIAERESIS: u8 = 214;
pub const MULTIPLICATION_SIGN: u8 = 215;
pub const LATIN_CAPITAL_LETTER_O_WITH_STROKE: u8 = 216;
pub const LATIN_CAPITAL_LETTER_U_WITH_GRAVE: u8 = 217;
pub const LATIN_CAPITAL_LETTER_U_WITH_ACUTE: u8 = 218;
pub const LATIN_CAPITAL_LETTER_U_WITH_CIRCUMFLEX: u8 = 219;
pub const LATIN_CAPITAL_LETTER_U_WITH_DIAERESIS: u8 = 220;
pub const LATIN_CAPITAL_LETTER_Y_WITH_ACUTE: u8 = 221;
pub const LATIN_CAPITAL_LETTER_THORN: u8 = 222;
pub const LATIN_SMALL_LETTER_SHARP_S: u8 = 223;
pub const LATIN_SMALL_LETTER_A_WITH_GRAVE: u8 = 224;
pub const LATIN_SMALL_LETTER_A_WITH_ACUTE: u8 = 225;
pub const LATIN_SMALL_LETTER_A_WITH_CIRCUMFLEX: u8 = 226;
pub const LATIN_SMALL_LETTER_A_WITH_TILDE: u8 = 227;
pub const LATIN_SMALL_LETTER_A_WITH_DIAERESIS: u8 = 228;
pub const LATIN_SMALL_LETTER_A_WITH_RING_ABOVE: u8 = 229;
pub const LATIN_SMALL_LETTER_AE: u8 = 230;
pub const LATIN_SMALL_LETTER_C_WITH_CEDILLA: u8 = 231;
pub const LATIN_SMALL_LETTER_E_WITH_GRAVE: u8 = 232;
pub const LATIN_SMALL_LETTER_E_WITH_ACUTE: u8 = 233;
pub const LATIN_SMALL_LETTER_E_WITH_CIRCUMFLEX: u8 = 234;
pub const LATIN_SMALL_LETTER_E_WITH_DIAERESIS: u8 = 235;
pub const LATIN_SMALL_LETTER_I_WITH_GRAVE: u8 = 236;
pub const LATIN_SMALL_LETTER_I_WITH_ACUTE: u8 = 237;
pub const LATIN_SMALL_LETTER_I_WITH_CIRCUMFLEX: u8 = 238;
pub const LATIN_SMALL_LETTER_I_WITH_DIAERESIS: u8 = 239;
pub const LATIN_SMALL_LETTER_ETH: u8 = 240;
pub const LATIN_SMALL_LETTER_N_WITH_TILDE: u8 = 241;
pub const LATIN_SMALL_LETTER_O_WITH_GRAVE: u8 = 242;
pub const LATIN_SMALL_LETTER_O_WITH_ACUTE: u8 = 243;
pub const LATIN_SMALL_LETTER_O_WITH_CIRCUMFLEX: u8 = 244;
pub const LATIN_SMALL_LETTER_O_WITH_TILDE: u8 = 245;
pub const LATIN_SMALL_LETTER_O_WITH_DIAERESIS: u8 = 246;
pub const DIVISION_SIGN: u8 = 247;
pub const LATIN_SMALL_LETTER_O_WITH_STROKE: u8 = 248;
pub const LATIN_SMALL_LETTER_U_WITH_GRAVE: u8 = 249;
pub const LATIN_SMALL_LETTER_U_WITH_ACUTE: u8 = 250;
pub const LATIN_SMALL_LETTER_U_WITH_CIRCUMFLEX: u8 = 251;
pub const LATIN_SMALL_LETTER_U_WITH_DIAERESIS: u8 = 252;
pub const LATIN_SMALL_LETTER_Y_WITH_ACUTE: u8 = 253;
pub const LATIN_SMALL_LETTER_THORN: u8 = 254;
pub const LATIN_SMALL_LETTER_Y_WITH_DIAERESIS: u8 = 255;

} // verus!

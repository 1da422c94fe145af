//! Named keysym constants.
//!
//! Numeric values of the X11 keysyms that the case converter, the column
//! resolver and the classification predicates refer to. Only the
//! constants the library's logic needs are listed; they follow the
//! standard keysym definitions (Latin blocks, Cyrillic, Greek, Armenian,
//! and the function/keypad/modifier groups).

use vstd::prelude::*;

verus! {

// Latin 1: basic letters.
pub const KEY_A: u32 = 0x0041;
pub const KEY_Z: u32 = 0x005a;
pub const KEY_a: u32 = 0x0061;
pub const KEY_z: u32 = 0x007a;

// Latin 1: accented letters. The multiplication/division signs split the
// letter blocks, so the ranges stop at Odiaeresis/odiaeresis and resume
// at Ooblique/oslash.
pub const KEY_Agrave: u32 = 0x00c0;
pub const KEY_Odiaeresis: u32 = 0x00d6;
pub const KEY_Ooblique: u32 = 0x00d8;
pub const KEY_Thorn: u32 = 0x00de;
pub const KEY_agrave: u32 = 0x00e0;
pub const KEY_odiaeresis: u32 = 0x00f6;
pub const KEY_oslash: u32 = 0x00f8;
pub const KEY_thorn: u32 = 0x00fe;

// Latin 2.
pub const KEY_Aogonek: u32 = 0x01a1;
pub const KEY_Lstroke: u32 = 0x01a3;
pub const KEY_Sacute: u32 = 0x01a6;
pub const KEY_Scaron: u32 = 0x01a9;
pub const KEY_Zacute: u32 = 0x01ac;
pub const KEY_Zcaron: u32 = 0x01ae;
pub const KEY_Zabovedot: u32 = 0x01af;
pub const KEY_aogonek: u32 = 0x01b1;
pub const KEY_lstroke: u32 = 0x01b3;
pub const KEY_sacute: u32 = 0x01b6;
pub const KEY_scaron: u32 = 0x01b9;
pub const KEY_zacute: u32 = 0x01bc;
pub const KEY_zcaron: u32 = 0x01be;
pub const KEY_zabovedot: u32 = 0x01bf;
pub const KEY_Racute: u32 = 0x01c0;
pub const KEY_Tcedilla: u32 = 0x01de;
pub const KEY_racute: u32 = 0x01e0;
pub const KEY_tcedilla: u32 = 0x01fe;

// Latin 3.
pub const KEY_Hstroke: u32 = 0x02a1;
pub const KEY_Hcircumflex: u32 = 0x02a6;
pub const KEY_Gbreve: u32 = 0x02ab;
pub const KEY_Jcircumflex: u32 = 0x02ac;
pub const KEY_hstroke: u32 = 0x02b1;
pub const KEY_hcircumflex: u32 = 0x02b6;
pub const KEY_gbreve: u32 = 0x02bb;
pub const KEY_jcircumflex: u32 = 0x02bc;
pub const KEY_Cabovedot: u32 = 0x02c5;
pub const KEY_Scircumflex: u32 = 0x02de;
pub const KEY_cabovedot: u32 = 0x02e5;
pub const KEY_scircumflex: u32 = 0x02fe;

// Latin 4.
pub const KEY_Rcedilla: u32 = 0x03a3;
pub const KEY_Tslash: u32 = 0x03ac;
pub const KEY_rcedilla: u32 = 0x03b3;
pub const KEY_tslash: u32 = 0x03bc;
pub const KEY_ENG: u32 = 0x03bd;
pub const KEY_eng: u32 = 0x03bf;
pub const KEY_Amacron: u32 = 0x03c0;
pub const KEY_Umacron: u32 = 0x03de;
pub const KEY_amacron: u32 = 0x03e0;
pub const KEY_umacron: u32 = 0x03fe;

// Cyrillic: the Serbian/Macedonian extensions, then the main block. The
// lowercase letters sit below the uppercase ones in both sub-blocks.
pub const KEY_Serbian_dje: u32 = 0x06a1;
pub const KEY_Serbian_dze: u32 = 0x06af;
pub const KEY_Serbian_DJE: u32 = 0x06b1;
pub const KEY_Serbian_DZE: u32 = 0x06bf;
pub const KEY_Cyrillic_yu: u32 = 0x06c0;
pub const KEY_Cyrillic_hardsign: u32 = 0x06df;
pub const KEY_Cyrillic_YU: u32 = 0x06e0;
pub const KEY_Cyrillic_HARDSIGN: u32 = 0x06ff;

// Greek: accented vowels, then the plain alphabet.
pub const KEY_Greek_ALPHAaccent: u32 = 0x07a1;
pub const KEY_Greek_OMEGAaccent: u32 = 0x07ab;
pub const KEY_Greek_alphaaccent: u32 = 0x07b1;
pub const KEY_Greek_iotaaccentdieresis: u32 = 0x07b6;
pub const KEY_Greek_upsilonaccentdieresis: u32 = 0x07ba;
pub const KEY_Greek_omegaaccent: u32 = 0x07bb;
pub const KEY_Greek_ALPHA: u32 = 0x07c1;
pub const KEY_Greek_OMEGA: u32 = 0x07d9;
pub const KEY_Greek_alpha: u32 = 0x07e1;
pub const KEY_Greek_finalsmallsigma: u32 = 0x07f3;
pub const KEY_Greek_omega: u32 = 0x07f9;

// Armenian: one interleaved block, uppercase on even codes, lowercase on
// the odd code one above.
pub const KEY_Armenian_AYB: u32 = 0x14b2;
pub const KEY_Armenian_fe: u32 = 0x14ff;

// Function, cursor, keypad and modifier groups.
pub const KEY_Home: u32 = 0xff50;
pub const KEY_Select: u32 = 0xff60;
pub const KEY_Break: u32 = 0xff6b;
pub const KEY_Mode_switch: u32 = 0xff7e;
pub const KEY_Num_Lock: u32 = 0xff7f;
pub const KEY_KP_Space: u32 = 0xff80;
pub const KEY_KP_F1: u32 = 0xff91;
pub const KEY_KP_F4: u32 = 0xff94;
pub const KEY_KP_Equal: u32 = 0xffbd;
pub const KEY_F1: u32 = 0xffbe;
pub const KEY_F35: u32 = 0xffe0;
pub const KEY_Shift_L: u32 = 0xffe1;
pub const KEY_Hyper_R: u32 = 0xffee;
pub const KEY_ISO_Lock: u32 = 0xfe01;
pub const KEY_ISO_Level5_Lock: u32 = 0xfe13;

} // verus!

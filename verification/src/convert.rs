//! Case conversion of keysyms.
//!
//! A keysym's uppercase/lowercase pair is defined by an ordered list of
//! range rules, evaluated top to bottom: the first range that contains
//! the keysym decides the pair. Exception ranges (the accented Greek
//! vowels with dieresis, the final small sigma) stand before or inside
//! the guard of their enclosing general range, so they never receive the
//! blanket transform. A keysym outside every range has no case
//! distinction: both members of the pair equal the input.

use vstd::prelude::*;

use crate::keysyms::{
    KEY_A, KEY_Z, KEY_a, KEY_z,
    KEY_Agrave, KEY_Odiaeresis, KEY_Ooblique, KEY_Thorn,
    KEY_agrave, KEY_odiaeresis, KEY_oslash, KEY_thorn,
    KEY_Aogonek, KEY_Lstroke, KEY_Sacute, KEY_Scaron,
    KEY_Zacute, KEY_Zcaron, KEY_Zabovedot, KEY_aogonek,
    KEY_lstroke, KEY_sacute, KEY_scaron, KEY_zacute,
    KEY_zcaron, KEY_zabovedot, KEY_Racute, KEY_Tcedilla,
    KEY_racute, KEY_tcedilla, KEY_Hstroke, KEY_Hcircumflex,
    KEY_Gbreve, KEY_Jcircumflex, KEY_hstroke, KEY_hcircumflex,
    KEY_gbreve, KEY_jcircumflex, KEY_Cabovedot, KEY_Scircumflex,
    KEY_cabovedot, KEY_scircumflex, KEY_Rcedilla, KEY_Tslash,
    KEY_rcedilla, KEY_tslash, KEY_ENG, KEY_eng,
    KEY_Amacron, KEY_Umacron, KEY_amacron, KEY_umacron,
    KEY_Serbian_dje, KEY_Serbian_dze, KEY_Serbian_DJE, KEY_Serbian_DZE,
    KEY_Cyrillic_yu, KEY_Cyrillic_hardsign, KEY_Cyrillic_YU, KEY_Cyrillic_HARDSIGN,
    KEY_Greek_ALPHAaccent, KEY_Greek_OMEGAaccent, KEY_Greek_alphaaccent, KEY_Greek_iotaaccentdieresis,
    KEY_Greek_upsilonaccentdieresis, KEY_Greek_omegaaccent, KEY_Greek_ALPHA, KEY_Greek_OMEGA,
    KEY_Greek_alpha, KEY_Greek_finalsmallsigma, KEY_Greek_omega, KEY_Armenian_AYB,
    KEY_Armenian_fe,
};

verus! {

/// The uppercase/lowercase pair of a keysym, as one spec-level table.
///
/// The result's first member is the uppercase form, the second the
/// lowercase form. Uppercase ranges leave the first member untouched and
/// shift the second into the matching lowercase range, and vice versa;
/// the Armenian block interleaves the cases, uppercase on even codes.
pub open spec fn spec_case_fold(k: u32) -> (u32, u32) {
    if KEY_A <= k <= KEY_Z {
        (k, (k + (KEY_a - KEY_A)) as u32)
    } else if KEY_a <= k <= KEY_z {
        ((k - (KEY_a - KEY_A)) as u32, k)
    } else if KEY_Agrave <= k <= KEY_Odiaeresis {
        (k, (k + (KEY_agrave - KEY_Agrave)) as u32)
    } else if KEY_agrave <= k <= KEY_odiaeresis {
        ((k - (KEY_agrave - KEY_Agrave)) as u32, k)
    } else if KEY_Ooblique <= k <= KEY_Thorn {
        (k, (k + (KEY_oslash - KEY_Ooblique)) as u32)
    } else if KEY_oslash <= k <= KEY_thorn {
        ((k - (KEY_oslash - KEY_Ooblique)) as u32, k)
    } else if k == KEY_Aogonek {
        (k, KEY_aogonek)
    } else if k == KEY_aogonek {
        (KEY_Aogonek, k)
    } else if KEY_Lstroke <= k <= KEY_Sacute {
        (k, (k + (KEY_lstroke - KEY_Lstroke)) as u32)
    } else if KEY_lstroke <= k <= KEY_sacute {
        ((k - (KEY_lstroke - KEY_Lstroke)) as u32, k)
    } else if KEY_Scaron <= k <= KEY_Zacute {
        (k, (k + (KEY_scaron - KEY_Scaron)) as u32)
    } else if KEY_scaron <= k <= KEY_zacute {
        ((k - (KEY_scaron - KEY_Scaron)) as u32, k)
    } else if KEY_Zcaron <= k <= KEY_Zabovedot {
        (k, (k + (KEY_zcaron - KEY_Zcaron)) as u32)
    } else if KEY_zcaron <= k <= KEY_zabovedot {
        ((k - (KEY_zcaron - KEY_Zcaron)) as u32, k)
    } else if KEY_Racute <= k <= KEY_Tcedilla {
        (k, (k + (KEY_racute - KEY_Racute)) as u32)
    } else if KEY_racute <= k <= KEY_tcedilla {
        ((k - (KEY_racute - KEY_Racute)) as u32, k)
    } else if KEY_Hstroke <= k <= KEY_Hcircumflex {
        (k, (k + (KEY_hstroke - KEY_Hstroke)) as u32)
    } else if KEY_hstroke <= k <= KEY_hcircumflex {
        ((k - (KEY_hstroke - KEY_Hstroke)) as u32, k)
    } else if KEY_Gbreve <= k <= KEY_Jcircumflex {
        (k, (k + (KEY_gbreve - KEY_Gbreve)) as u32)
    } else if KEY_gbreve <= k <= KEY_jcircumflex {
        ((k - (KEY_gbreve - KEY_Gbreve)) as u32, k)
    } else if KEY_Cabovedot <= k <= KEY_Scircumflex {
        (k, (k + (KEY_cabovedot - KEY_Cabovedot)) as u32)
    } else if KEY_cabovedot <= k <= KEY_scircumflex {
        ((k - (KEY_cabovedot - KEY_Cabovedot)) as u32, k)
    } else if KEY_Rcedilla <= k <= KEY_Tslash {
        (k, (k + (KEY_rcedilla - KEY_Rcedilla)) as u32)
    } else if KEY_rcedilla <= k <= KEY_tslash {
        ((k - (KEY_rcedilla - KEY_Rcedilla)) as u32, k)
    } else if k == KEY_ENG {
        (k, KEY_eng)
    } else if k == KEY_eng {
        (KEY_ENG, k)
    } else if KEY_Amacron <= k <= KEY_Umacron {
        (k, (k + (KEY_amacron - KEY_Amacron)) as u32)
    } else if KEY_amacron <= k <= KEY_umacron {
        ((k - (KEY_amacron - KEY_Amacron)) as u32, k)
    } else if KEY_Serbian_DJE <= k <= KEY_Serbian_DZE {
        (k, (k - (KEY_Serbian_DJE - KEY_Serbian_dje)) as u32)
    } else if KEY_Serbian_dje <= k <= KEY_Serbian_dze {
        ((k + (KEY_Serbian_DJE - KEY_Serbian_dje)) as u32, k)
    } else if KEY_Cyrillic_YU <= k <= KEY_Cyrillic_HARDSIGN {
        (k, (k - (KEY_Cyrillic_YU - KEY_Cyrillic_yu)) as u32)
    } else if KEY_Cyrillic_yu <= k <= KEY_Cyrillic_hardsign {
        ((k + (KEY_Cyrillic_YU - KEY_Cyrillic_yu)) as u32, k)
    } else if KEY_Greek_ALPHAaccent <= k <= KEY_Greek_OMEGAaccent {
        (k, (k + (KEY_Greek_alphaaccent - KEY_Greek_ALPHAaccent)) as u32)
    } else if KEY_Greek_alphaaccent <= k <= KEY_Greek_omegaaccent
        && k != KEY_Greek_iotaaccentdieresis && k != KEY_Greek_upsilonaccentdieresis {
        ((k - (KEY_Greek_alphaaccent - KEY_Greek_ALPHAaccent)) as u32, k)
    } else if KEY_Greek_ALPHA <= k <= KEY_Greek_OMEGA {
        (k, (k + (KEY_Greek_alpha - KEY_Greek_ALPHA)) as u32)
    } else if KEY_Greek_alpha <= k <= KEY_Greek_omega && k != KEY_Greek_finalsmallsigma {
        ((k - (KEY_Greek_alpha - KEY_Greek_ALPHA)) as u32, k)
    } else if KEY_Armenian_AYB <= k <= KEY_Armenian_fe {
        ((k - k % 2) as u32, (k + 1 - k % 2) as u32)
    } else {
        (k, k)
    }
}

/// The uppercase form of a keysym.
pub open spec fn spec_upper(k: u32) -> u32 {
    spec_case_fold(k).0
}

/// The lowercase form of a keysym.
pub open spec fn spec_lower(k: u32) -> u32 {
    spec_case_fold(k).1
}

/// Convert a keysym to its uppercase/lowercase equivalents.
///
/// Total over all keysym values: a keysym with no case distinction (a
/// digit, a function key, an unmapped code) folds to itself on both
/// sides.
pub fn convert_case(keysym: u32) -> (r: (u32, u32))
    ensures
        r == spec_case_fold(keysym),
        r.0 == spec_upper(keysym),
        r.1 == spec_lower(keysym),
{
    let mut upper = keysym;
    let mut lower = keysym;

    if KEY_A <= keysym && keysym <= KEY_Z {
        lower = keysym + (KEY_a - KEY_A);
    } else if KEY_a <= keysym && keysym <= KEY_z {
        upper = keysym - (KEY_a - KEY_A);
    } else if KEY_Agrave <= keysym && keysym <= KEY_Odiaeresis {
        lower = keysym + (KEY_agrave - KEY_Agrave);
    } else if KEY_agrave <= keysym && keysym <= KEY_odiaeresis {
        upper = keysym - (KEY_agrave - KEY_Agrave);
    } else if KEY_Ooblique <= keysym && keysym <= KEY_Thorn {
        lower = keysym + (KEY_oslash - KEY_Ooblique);
    } else if KEY_oslash <= keysym && keysym <= KEY_thorn {
        upper = keysym - (KEY_oslash - KEY_Ooblique);
    } else if keysym == KEY_Aogonek {
        lower = KEY_aogonek;
    } else if keysym == KEY_aogonek {
        upper = KEY_Aogonek;
    } else if KEY_Lstroke <= keysym && keysym <= KEY_Sacute {
        lower = keysym + (KEY_lstroke - KEY_Lstroke);
    } else if KEY_lstroke <= keysym && keysym <= KEY_sacute {
        upper = keysym - (KEY_lstroke - KEY_Lstroke);
    } else if KEY_Scaron <= keysym && keysym <= KEY_Zacute {
        lower = keysym + (KEY_scaron - KEY_Scaron);
    } else if KEY_scaron <= keysym && keysym <= KEY_zacute {
        upper = keysym - (KEY_scaron - KEY_Scaron);
    } else if KEY_Zcaron <= keysym && keysym <= KEY_Zabovedot {
        lower = keysym + (KEY_zcaron - KEY_Zcaron);
    } else if KEY_zcaron <= keysym && keysym <= KEY_zabovedot {
        upper = keysym - (KEY_zcaron - KEY_Zcaron);
    } else if KEY_Racute <= keysym && keysym <= KEY_Tcedilla {
        lower = keysym + (KEY_racute - KEY_Racute);
    } else if KEY_racute <= keysym && keysym <= KEY_tcedilla {
        upper = keysym - (KEY_racute - KEY_Racute);
    } else if KEY_Hstroke <= keysym && keysym <= KEY_Hcircumflex {
        lower = keysym + (KEY_hstroke - KEY_Hstroke);
    } else if KEY_hstroke <= keysym && keysym <= KEY_hcircumflex {
        upper = keysym - (KEY_hstroke - KEY_Hstroke);
    } else if KEY_Gbreve <= keysym && keysym <= KEY_Jcircumflex {
        lower = keysym + (KEY_gbreve - KEY_Gbreve);
    } else if KEY_gbreve <= keysym && keysym <= KEY_jcircumflex {
        upper = keysym - (KEY_gbreve - KEY_Gbreve);
    } else if KEY_Cabovedot <= keysym && keysym <= KEY_Scircumflex {
        lower = keysym + (KEY_cabovedot - KEY_Cabovedot);
    } else if KEY_cabovedot <= keysym && keysym <= KEY_scircumflex {
        upper = keysym - (KEY_cabovedot - KEY_Cabovedot);
    } else if KEY_Rcedilla <= keysym && keysym <= KEY_Tslash {
        lower = keysym + (KEY_rcedilla - KEY_Rcedilla);
    } else if KEY_rcedilla <= keysym && keysym <= KEY_tslash {
        upper = keysym - (KEY_rcedilla - KEY_Rcedilla);
    } else if keysym == KEY_ENG {
        lower = KEY_eng;
    } else if keysym == KEY_eng {
        upper = KEY_ENG;
    } else if KEY_Amacron <= keysym && keysym <= KEY_Umacron {
        lower = keysym + (KEY_amacron - KEY_Amacron);
    } else if KEY_amacron <= keysym && keysym <= KEY_umacron {
        upper = keysym - (KEY_amacron - KEY_Amacron);
    } else if KEY_Serbian_DJE <= keysym && keysym <= KEY_Serbian_DZE {
        lower = keysym - (KEY_Serbian_DJE - KEY_Serbian_dje);
    } else if KEY_Serbian_dje <= keysym && keysym <= KEY_Serbian_dze {
        upper = keysym + (KEY_Serbian_DJE - KEY_Serbian_dje);
    } else if KEY_Cyrillic_YU <= keysym && keysym <= KEY_Cyrillic_HARDSIGN {
        lower = keysym - (KEY_Cyrillic_YU - KEY_Cyrillic_yu);
    } else if KEY_Cyrillic_yu <= keysym && keysym <= KEY_Cyrillic_hardsign {
        upper = keysym + (KEY_Cyrillic_YU - KEY_Cyrillic_yu);
    } else if KEY_Greek_ALPHAaccent <= keysym && keysym <= KEY_Greek_OMEGAaccent {
        lower = keysym + (KEY_Greek_alphaaccent - KEY_Greek_ALPHAaccent);
    } else if KEY_Greek_alphaaccent <= keysym && keysym <= KEY_Greek_omegaaccent
        && keysym != KEY_Greek_iotaaccentdieresis
        && keysym != KEY_Greek_upsilonaccentdieresis
    {
        upper = keysym - (KEY_Greek_alphaaccent - KEY_Greek_ALPHAaccent);
    } else if KEY_Greek_ALPHA <= keysym && keysym <= KEY_Greek_OMEGA {
        lower = keysym + (KEY_Greek_alpha - KEY_Greek_ALPHA);
    } else if KEY_Greek_alpha <= keysym && keysym <= KEY_Greek_omega
        && keysym != KEY_Greek_finalsmallsigma
    {
        upper = keysym - (KEY_Greek_alpha - KEY_Greek_ALPHA);
    } else if KEY_Armenian_AYB <= keysym && keysym <= KEY_Armenian_fe {
        // Uppercase sits on the even code, lowercase one above it.
        upper = keysym - keysym % 2;
        lower = keysym + 1 - keysym % 2;
    }

    (upper, lower)
}

/// Case folding is idempotent: the lowercase form of a lowercase form is
/// itself, and likewise for uppercase. Every range rule sends a keysym
/// into a range whose own rule leaves that side of the pair unchanged.
pub proof fn lemma_case_fold_idempotent(k: u32)
    ensures
        spec_lower(spec_lower(k)) == spec_lower(k),
        spec_upper(spec_upper(k)) == spec_upper(k),
{
}

} // verus!

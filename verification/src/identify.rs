//! Heuristic card-type classification from an ATR string and the
//! descriptions attached to it in a card database, and the fixed
//! tables of authentication methods per card family.

use vstd::prelude::*;
use vstd::string::StrSliceExecFns;
use vstd::string::StringExecFns;

verus! {

/// The card families the classifier distinguishes.
#[derive(Clone, Debug, PartialEq, Eq, Structural)]
pub enum MifareType {
    MifareClassic1K,
    MifareClassic4K,
    MifareMini,
    MifareUltralight,
    MifareDesfire,
    MifarePlus,
    OtherMifare,
    Unknown,
}

impl MifareType {
    /// The display name of the card family.
    pub fn to_string(&self) -> (r: &str)
        ensures
            *self is MifareClassic1K ==> r@ == "Mifare Classic 1K"@,
            *self is MifareClassic4K ==> r@ == "Mifare Classic 4K"@,
            *self is MifareMini ==> r@ == "Mifare Mini"@,
            *self is MifareUltralight ==> r@ == "Mifare Ultralight"@,
            *self is MifareDesfire ==> r@ == "Mifare DESFire"@,
            *self is MifarePlus ==> r@ == "Mifare Plus"@,
            *self is OtherMifare ==> r@ == "Other Mifare Type"@,
            *self is Unknown ==> r@ == "Unknown Card Type"@,
    {
        match self {
            MifareType::MifareClassic1K => "Mifare Classic 1K",
            MifareType::MifareClassic4K => "Mifare Classic 4K",
            MifareType::MifareMini => "Mifare Mini",
            MifareType::MifareUltralight => "Mifare Ultralight",
            MifareType::MifareDesfire => "Mifare DESFire",
            MifareType::MifarePlus => "Mifare Plus",
            MifareType::OtherMifare => "Other Mifare Type",
            MifareType::Unknown => "Unknown Card Type",
        }
    }
}

/// Whether `pat` occurs as a contiguous substring of `hay`.
pub open spec fn spec_contains(hay: Seq<char>, pat: Seq<char>) -> bool {
    exists|i: int|
        0 <= i && i + pat.len() <= hay.len() && #[trigger] hay.subrange(i, i + pat.len()) == pat
}

/// Relies on str::contains: true exactly when the pattern matches a
/// sub-slice of the string.
#[verifier::external_body]
fn str_contains(hay: &str, pat: &str) -> (r: bool)
    ensures
        r == spec_contains(hay@, pat@),
{
    hay.contains(pat)
}

/// What str::to_lowercase returns; a function of the characters alone.
pub uninterp spec fn lower_of(s: Seq<char>) -> Seq<char>;

/// Relies on str::to_lowercase: the result depends only on the
/// characters of the input.
#[verifier::external_body]
fn to_lowercase_string(s: &str) -> (r: String)
    ensures
        r@ == lower_of(s@),
{
    s.to_lowercase()
}

/// The parts joined with single spaces between them.
pub open spec fn spec_join_spaced(parts: Seq<Seq<char>>) -> Seq<char>
    decreases parts.len(),
{
    if parts.len() == 0 {
        Seq::empty()
    } else if parts.len() == 1 {
        parts[0]
    } else {
        spec_join_spaced(parts.drop_last()) + " "@ + parts.last()
    }
}

fn join_spaced(parts: &[String]) -> (r: String)
    ensures
        r@ == spec_join_spaced(parts@.map_values(|s: String| s@)),
{
    let ghost m = parts@.map_values(|s: String| s@);
    let mut r = String::new();
    let mut i: usize = 0;
    while i < parts.len()
        invariant
            i <= parts@.len(),
            m == parts@.map_values(|s: String| s@),
            m.len() == parts@.len(),
            r@ == spec_join_spaced(m.take(i as int)),
        decreases parts@.len() - i,
    {
        if i > 0 {
            r.append(" ");
        }
        r.append(parts[i].as_str());
        proof {
            assert(m[i as int] == parts@[i as int]@);
            if i == 0 {
                assert(r@ =~= spec_join_spaced(m.take(1)));
            } else {
                assert(m.take(i + 1int).drop_last() =~= m.take(i as int));
                assert(m.take(i + 1int).last() == m[i as int]);
                assert(r@ =~= spec_join_spaced(m.take(i + 1int)));
            }
        }
        i = i + 1;
    }
    proof {
        assert(m.take(m.len() as int) =~= m);
    }
    r
}

/// The classification decision over the ATR text and the lower-cased,
/// space-joined description text: exact ATR prefixes for the common
/// families first, then keyword heuristics over the descriptions.
pub open spec fn spec_identify_card_type(atr: Seq<char>, descs: Seq<Seq<char>>) -> MifareType {
    let desc_text = lower_of(spec_join_spaced(descs));
    if spec_contains(atr, "3B 8F 80 01 80 4F 0C A0 00 00 03 06 03 00 01"@) {
        MifareType::MifareClassic1K
    } else if spec_contains(atr, "3B 8F 80 01 80 4F 0C A0 00 00 03 06 03 00 02"@) {
        MifareType::MifareClassic4K
    } else if spec_contains(atr, "3B 8F 80 01 80 4F 0C A0 00 00 03 06 03 00 03"@) {
        MifareType::MifareUltralight
    } else if spec_contains(atr, "3B 8F 80 01 80 4F 0C A0 00 00 03 06 00 26"@) {
        MifareType::MifareMini
    } else if spec_contains(atr, "3B 81 80 01 80 80"@) || spec_contains(desc_text, "desfire"@) {
        MifareType::MifareDesfire
    } else if spec_contains(desc_text, "mifare plus"@) {
        MifareType::MifarePlus
    } else if spec_contains(desc_text, "mifare"@) {
        if spec_contains(desc_text, "1k"@) || spec_contains(desc_text, "classic"@)
            && !spec_contains(desc_text, "4k"@) {
            MifareType::MifareClassic1K
        } else if spec_contains(desc_text, "4k"@) {
            MifareType::MifareClassic4K
        } else if spec_contains(desc_text, "mini"@) {
            MifareType::MifareMini
        } else if spec_contains(desc_text, "ultralight"@) {
            MifareType::MifareUltralight
        } else if spec_contains(desc_text, "desfire"@) {
            MifareType::MifareDesfire
        } else if spec_contains(desc_text, "plus"@) {
            MifareType::MifarePlus
        } else {
            MifareType::OtherMifare
        }
    } else {
        MifareType::Unknown
    }
}

/// Classify a card from its ATR and the description lines attached to
/// it: exact ATR patterns first, then keywords in the lower-cased
/// descriptions.
pub fn identify_card_type(atr: &str, descriptions: &[String]) -> (r: MifareType)
    ensures
        r == spec_identify_card_type(atr@, descriptions@.map_values(|s: String| s@)),
{
    let joined = join_spaced(descriptions);
    let desc_text = to_lowercase_string(joined.as_str());
    let dt = desc_text.as_str();
    if str_contains(atr, "3B 8F 80 01 80 4F 0C A0 00 00 03 06 03 00 01") {
        MifareType::MifareClassic1K
    } else if str_contains(atr, "3B 8F 80 01 80 4F 0C A0 00 00 03 06 03 00 02") {
        MifareType::MifareClassic4K
    } else if str_contains(atr, "3B 8F 80 01 80 4F 0C A0 00 00 03 06 03 00 03") {
        MifareType::MifareUltralight
    } else if str_contains(atr, "3B 8F 80 01 80 4F 0C A0 00 00 03 06 00 26") {
        MifareType::MifareMini
    } else if str_contains(atr, "3B 81 80 01 80 80") || str_contains(dt, "desfire") {
        MifareType::MifareDesfire
    } else if str_contains(dt, "mifare plus") {
        MifareType::MifarePlus
    } else if str_contains(dt, "mifare") {
        if str_contains(dt, "1k") || str_contains(dt, "classic") && !str_contains(dt, "4k") {
            MifareType::MifareClassic1K
        } else if str_contains(dt, "4k") {
            MifareType::MifareClassic4K
        } else if str_contains(dt, "mini") {
            MifareType::MifareMini
        } else if str_contains(dt, "ultralight") {
            MifareType::MifareUltralight
        } else if str_contains(dt, "desfire") {
            MifareType::MifareDesfire
        } else if str_contains(dt, "plus") {
            MifareType::MifarePlus
        } else {
            MifareType::OtherMifare
        }
    } else {
        MifareType::Unknown
    }
}

/// Pattern identification when the ATR is not in the database: PC/SC
/// contactless prefixes with the storage-card code, then the DESFire
/// prefix, a Plus hint, and a generic fallback.
pub open spec fn spec_identify_by_atr_pattern(atr: Seq<char>) -> MifareType {
    if (spec_contains(atr, "3B 8F 80 01 80 4F"@) || spec_contains(atr, "3B8F80018F4F"@)) && (
    spec_contains(atr, "00 01"@) || spec_contains(atr, "0001"@)) {
        MifareType::MifareClassic1K
    } else if (spec_contains(atr, "3B 8F 80 01 80 4F"@) || spec_contains(atr, "3B8F80018F4F"@))
        && (spec_contains(atr, "00 02"@) || spec_contains(atr, "0002"@)) {
        MifareType::MifareClassic4K
    } else if (spec_contains(atr, "3B 8F 80 01 80 4F"@) || spec_contains(atr, "3B8F80018F4F"@))
        && (spec_contains(atr, "00 03"@) || spec_contains(atr, "0003"@)) {
        MifareType::MifareUltralight
    } else if (spec_contains(atr, "3B 8F 80 01 80 4F"@) || spec_contains(atr, "3B8F80018F4F"@))
        && (spec_contains(atr, "00 26"@) || spec_contains(atr, "0026"@)) {
        MifareType::MifareMini
    } else if spec_contains(atr, "3B 81 80"@) || spec_contains(atr, "3B8180"@) {
        MifareType::MifareDesfire
    } else if spec_contains(atr, "3B 8F"@) && (spec_contains(atr, "PLUS"@) || spec_contains(
        atr,
        "plus"@,
    )) {
        MifareType::MifarePlus
    } else if spec_contains(atr, "3B"@) && spec_contains(atr, "80"@) {
        MifareType::OtherMifare
    } else {
        MifareType::Unknown
    }
}

/// Identify a card family from ATR patterns alone, for ATRs that the
/// database does not list.
pub fn identify_by_atr_pattern(atr: &str) -> (r: MifareType)
    ensures
        r == spec_identify_by_atr_pattern(atr@),
{
    if str_contains(atr, "3B 8F 80 01 80 4F") || str_contains(atr, "3B8F80018F4F") {
        if str_contains(atr, "00 01") || str_contains(atr, "0001") {
            return MifareType::MifareClassic1K;
        } else if str_contains(atr, "00 02") || str_contains(atr, "0002") {
            return MifareType::MifareClassic4K;
        } else if str_contains(atr, "00 03") || str_contains(atr, "0003") {
            return MifareType::MifareUltralight;
        } else if str_contains(atr, "00 26") || str_contains(atr, "0026") {
            return MifareType::MifareMini;
        }
    }
    if str_contains(atr, "3B 81 80") || str_contains(atr, "3B8180") {
        return MifareType::MifareDesfire;
    }
    if str_contains(atr, "3B 8F") && (str_contains(atr, "PLUS") || str_contains(atr, "plus")) {
        return MifareType::MifarePlus;
    }
    if str_contains(atr, "3B") && str_contains(atr, "80") {
        return MifareType::OtherMifare;
    }
    MifareType::Unknown
}

/// Whether the ATR text matches a pattern of equal length in which
/// `.` stands for any single character.
pub open spec fn spec_atr_match(actual: Seq<char>, pattern: Seq<char>) -> bool {
    actual.len() == pattern.len() && (forall|i: int|
        0 <= i < pattern.len() ==> pattern[i] == '.' || pattern[i] == actual[i])
}

/// Character-wise ATR comparison where `.` in the pattern matches any
/// character; the lengths must agree.
pub fn atr_pattern_match(actual_atr: &str, pattern_atr: &str) -> (r: bool)
    ensures
        r == spec_atr_match(actual_atr@, pattern_atr@),
{
    let alen = actual_atr.unicode_len();
    let plen = pattern_atr.unicode_len();
    if alen != plen {
        return false;
    }
    let mut i: usize = 0;
    while i < plen
        invariant
            alen == actual_atr@.len(),
            plen == pattern_atr@.len(),
            alen == plen,
            i <= plen,
            forall|j: int|
                0 <= j < i ==> pattern_atr@[j] == '.' || pattern_atr@[j] == actual_atr@[j],
        decreases plen - i,
    {
        let pc = pattern_atr.get_char(i);
        if pc != '.' {
            let ac = actual_atr.get_char(i);
            if pc != ac {
                return false;
            }
        }
        i = i + 1;
    }
    true
}

fn push_line(out: &mut Vec<String>, line: &str)
    ensures
        final(out)@.len() == old(out)@.len() + 1,
        final(out)@.last()@ == line@,
        forall|i: int| 0 <= i < old(out)@.len() ==> final(out)@[i] == old(out)@[i],
{
    out.push(line.to_string());
}

/// The authentication methods available for a card family, as fixed
/// advisory text.
pub fn get_authentication_methods(card_type: &MifareType) -> (r: Vec<String>)
    ensures
        *card_type is MifareClassic1K || *card_type is MifareClassic4K ==> r@.len() == 4
            && r@[0]@ == "Type A authentication"@
            && r@[1]@ == "3-Pass Authentication (ISO 9798-2)"@
            && r@[2]@ == "CRYPTO1 cipher (proprietary)"@
            && r@[3]@ == "Note: Classic encryption has been broken and is not secure"@,
        *card_type is MifareMini ==> r@.len() == 3
            && r@[0]@ == "Type A authentication"@
            && r@[1]@ == "CRYPTO1 cipher (proprietary)"@
            && r@[2]@ == "Same security as Mifare Classic but less memory"@,
        *card_type is MifareUltralight ==> r@.len() == 3
            && r@[0]@ == "No cryptographic protection in basic version"@
            && r@[1]@ == "Ultralight C adds 3DES authentication"@
            && r@[2]@ == "Mainly relies on limited access facility"@,
        *card_type is MifareDesfire ==> r@.len() == 5
            && r@[0]@ == "DESFire EV1: 3DES and AES (128-bit) encryption"@
            && r@[1]@ == "DESFire EV2/EV3: AES (128-bit) encryption"@
            && r@[2]@ == "Supports ISO/IEC 7816-4 command set"@
            && r@[3]@ == "Multiple applications with diverse keys"@
            && r@[4]@ == "Mutual three-pass authentication"@,
        *card_type is MifarePlus ==> r@.len() == 4
            && r@[0]@ == "Supports AES 128-bit encryption"@
            && r@[1]@ == "Backwards compatibility with CRYPTO1"@
            && r@[2]@ == "Multiple security levels (SL0-SL3)"@
            && r@[3]@ == "Enhanced key management features"@,
        *card_type is OtherMifare ==> r@.len() == 2
            && r@[0]@ == "Authentication method depends on specific Mifare variant"@
            && r@[1]@ == "Please consult the specific card documentation"@,
        *card_type is Unknown ==> r@.len() == 2
            && r@[0]@ == "Unknown card type, cannot determine authentication methods"@
            && r@[1]@ == "Try manual identification or contact card manufacturer"@,
{
    let mut r: Vec<String> = Vec::new();
    match card_type {
        MifareType::MifareClassic1K | MifareType::MifareClassic4K => {
            push_line(&mut r, "Type A authentication");
            push_line(&mut r, "3-Pass Authentication (ISO 9798-2)");
            push_line(&mut r, "CRYPTO1 cipher (proprietary)");
            push_line(&mut r, "Note: Classic encryption has been broken and is not secure");
        },
        MifareType::MifareMini => {
            push_line(&mut r, "Type A authentication");
            push_line(&mut r, "CRYPTO1 cipher (proprietary)");
            push_line(&mut r, "Same security as Mifare Classic but less memory");
        },
        MifareType::MifareUltralight => {
            push_line(&mut r, "No cryptographic protection in basic version");
            push_line(&mut r, "Ultralight C adds 3DES authentication");
            push_line(&mut r, "Mainly relies on limited access facility");
        },
        MifareType::MifareDesfire => {
            push_line(&mut r, "DESFire EV1: 3DES and AES (128-bit) encryption");
            push_line(&mut r, "DESFire EV2/EV3: AES (128-bit) encryption");
            push_line(&mut r, "Supports ISO/IEC 7816-4 command set");
            push_line(&mut r, "Multiple applications with diverse keys");
            push_line(&mut r, "Mutual three-pass authentication");
        },
        MifareType::MifarePlus => {
            push_line(&mut r, "Supports AES 128-bit encryption");
            push_line(&mut r, "Backwards compatibility with CRYPTO1");
            push_line(&mut r, "Multiple security levels (SL0-SL3)");
            push_line(&mut r, "Enhanced key management features");
        },
        MifareType::OtherMifare => {
            push_line(&mut r, "Authentication method depends on specific Mifare variant");
            push_line(&mut r, "Please consult the specific card documentation");
        },
        MifareType::Unknown => {
            push_line(&mut r, "Unknown card type, cannot determine authentication methods");
            push_line(&mut r, "Try manual identification or contact card manufacturer");
        },
    }
    r
}

} // verus!

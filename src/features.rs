use vstd::prelude::*;

verus! {

/// The set of capabilities a receiver advertises: a 64-bit mask in which
/// every bit is kept, named or not.
#[derive(Debug, Clone, Copy, PartialEq, Eq, Structural)]
pub struct AirplayFeatures {
    pub bits: u64,
}

/// The value of one hexadecimal digit, if `c` is one (either case).
pub open spec fn hex_digit_value(c: char) -> Option<nat> {
    if '0' <= c && c <= '9' {
        Some((c as nat - '0' as nat) as nat)
    } else if 'a' <= c && c <= 'f' {
        Some((c as nat - 'a' as nat + 10) as nat)
    } else if 'A' <= c && c <= 'F' {
        Some((c as nat - 'A' as nat + 10) as nat)
    } else {
        None
    }
}

pub open spec fn all_hex_digits(s: Seq<char>) -> bool {
    forall|i: int| 0 <= i < s.len() ==> (#[trigger] hex_digit_value(s[i])).is_some()
}

/// The number that a string of hexadecimal digits denotes.
pub open spec fn hex_value(s: Seq<char>) -> nat
    decreases s.len(),
{
    if s.len() == 0 {
        0
    } else {
        16 * hex_value(s.drop_last()) + hex_digit_value(s.last()).unwrap_or(0)
    }
}

/// A token without its optional `0x` / `0X` prefix.
pub open spec fn strip_hex_prefix(t: Seq<char>) -> Seq<char> {
    if t.len() >= 2 && t[0] == '0' && (t[1] == 'x' || t[1] == 'X') {
        t.subrange(2, t.len() as int)
    } else {
        t
    }
}

/// A token of the wire form: hexadecimal digits, optionally prefixed, whose
/// value fits in 32 bits.
pub open spec fn token_value(t: Seq<char>) -> Option<u32> {
    let d = strip_hex_prefix(t);
    if d.len() > 0 && all_hex_digits(d) && hex_value(d) < 0x1_0000_0000 {
        Some(hex_value(d) as u32)
    } else {
        None
    }
}

pub open spec fn is_first_comma(s: Seq<char>, i: int) -> bool {
    &&& 0 <= i < s.len()
    &&& s[i] == ','
    &&& forall|j: int| 0 <= j < i ==> s[j] != ','
}

/// The mask that a wire string denotes: exactly two tokens around one comma,
/// the low half first.
pub open spec fn parse_spec(s: Seq<char>) -> Option<u64> {
    if exists|i: int| is_first_comma(s, i) {
        let i = choose|i: int| is_first_comma(s, i);
        match (token_value(s.subrange(0, i)), token_value(s.subrange(i + 1, s.len() as int))) {
            (Some(lo), Some(hi)) => Some((lo as int + hi as int * 0x1_0000_0000) as u64),
            _ => None,
        }
    } else {
        None
    }
}


/// The sixteen upper-case hexadecimal digits, in order.
pub open spec fn upper_digits() -> Seq<char> {
    seq!['0', '1', '2', '3', '4', '5', '6', '7', '8', '9', 'A', 'B', 'C', 'D', 'E', 'F']
}

/// Upper-case hexadecimal text of `n`, without leading zeros (`0` for zero).
pub open spec fn hex_upper(n: nat) -> Seq<char>
    decreases n,
{
    if n < 16 {
        seq![upper_digits()[n as int]]
    } else {
        hex_upper(n / 16).push(upper_digits()[(n % 16) as int])
    }
}

/// The wire form of a mask: `0x` and the low half, a comma, `0x` and the high
/// half, both halves in upper-case hexadecimal.
pub open spec fn format_spec(v: u64) -> Seq<char> {
    seq!['0', 'x'] + hex_upper(v as nat % 0x1_0000_0000) + seq![',', '0', 'x'] + hex_upper(
        v as nat / 0x1_0000_0000,
    )
}

fn hex_digit_str(d: u64) -> (r: &'static str)
    requires
        d < 16,
    ensures
        r@ == seq![upper_digits()[d as int]],
{
    if d == 0 {
        proof {
            reveal_strlit("0");
        }
        "0"
    } else if d == 1 {
        proof {
            reveal_strlit("1");
        }
        "1"
    } else if d == 2 {
        proof {
            reveal_strlit("2");
        }
        "2"
    } else if d == 3 {
        proof {
            reveal_strlit("3");
        }
        "3"
    } else if d == 4 {
        proof {
            reveal_strlit("4");
        }
        "4"
    } else if d == 5 {
        proof {
            reveal_strlit("5");
        }
        "5"
    } else if d == 6 {
        proof {
            reveal_strlit("6");
        }
        "6"
    } else if d == 7 {
        proof {
            reveal_strlit("7");
        }
        "7"
    } else if d == 8 {
        proof {
            reveal_strlit("8");
        }
        "8"
    } else if d == 9 {
        proof {
            reveal_strlit("9");
        }
        "9"
    } else if d == 10 {
        proof {
            reveal_strlit("A");
        }
        "A"
    } else if d == 11 {
        proof {
            reveal_strlit("B");
        }
        "B"
    } else if d == 12 {
        proof {
            reveal_strlit("C");
        }
        "C"
    } else if d == 13 {
        proof {
            reveal_strlit("D");
        }
        "D"
    } else if d == 14 {
        proof {
            reveal_strlit("E");
        }
        "E"
    } else {
        proof {
            reveal_strlit("F");
        }
        "F"
    }
}


fn hex_digit(c: char) -> (r: Option<u32>)
    ensures
        match hex_digit_value(c) {
            Some(v) => r == Some(v as u32),
            None => r is None,
        },
{
    if '0' <= c && c <= '9' {
        Some(c as u32 - '0' as u32)
    } else if 'a' <= c && c <= 'f' {
        Some(c as u32 - 'a' as u32 + 10)
    } else if 'A' <= c && c <= 'F' {
        Some(c as u32 - 'A' as u32 + 10)
    } else {
        None
    }
}

proof fn lemma_hex_value_step(s: Seq<char>, a: int, k: int)
    requires
        0 <= a <= k < s.len(),
    ensures
        hex_value(s.subrange(a, k + 1)) == 16 * hex_value(s.subrange(a, k))
            + hex_digit_value(s[k]).unwrap_or(0),
{
    assert(s.subrange(a, k + 1).drop_last() =~= s.subrange(a, k));
}

proof fn lemma_hex_value_prefix(d: Seq<char>, k: int)
    requires
        0 <= k <= d.len(),
    ensures
        hex_value(d) >= hex_value(d.subrange(0, k)),
    decreases d.len(),
{
    if k == d.len() {
        assert(d.subrange(0, k) =~= d);
    } else {
        lemma_hex_value_prefix(d.drop_last(), k);
        assert(d.drop_last().subrange(0, k) =~= d.subrange(0, k));
    }
}

/// Reads the token `t[lo..hi]`.
fn parse_token(t: &str, lo: usize, hi: usize) -> (r: Option<u32>)
    requires
        lo <= hi <= t@.len(),
    ensures
        r == token_value(t@.subrange(lo as int, hi as int)),
{
    let ghost tok = t@.subrange(lo as int, hi as int);
    let mut start = lo;
    if hi - lo >= 2 && t.get_char(lo) == '0' && (t.get_char(lo + 1) == 'x' || t.get_char(lo + 1)
        == 'X') {
        start = lo + 2;
    }
    let ghost d = t@.subrange(start as int, hi as int);
    assert(strip_hex_prefix(tok) =~= d);
    if start == hi {
        return None;
    }
    let mut acc: u64 = 0;
    let mut i = start;
    while i < hi
        invariant
            lo <= start <= i <= hi <= t@.len(),
            d == t@.subrange(start as int, hi as int),
            tok == t@.subrange(lo as int, hi as int),
            strip_hex_prefix(tok) == d,
            acc == hex_value(t@.subrange(start as int, i as int)),
            acc < 0x1_0000_0000,
            all_hex_digits(t@.subrange(start as int, i as int)),
        decreases hi - i,
    {
        let c = t.get_char(i);
        match hex_digit(c) {
            None => {
                assert(d[i - start] == c);
                assert(hex_digit_value(d[i - start]) is None);
                assert(!all_hex_digits(d));
                assert(token_value(tok) is None);
                return None;
            },
            Some(v) => {
                proof {
                    lemma_hex_value_step(t@, start as int, i as int);
                    assert(t@.subrange(start as int, i + 1) =~= t@.subrange(start as int, i as int).push(c));
                }
                acc = acc * 16 + v as u64;
                i += 1;
                if acc >= 0x1_0000_0000 {
                    proof {
                        assert(d.subrange(0, i - start) =~= t@.subrange(start as int, i as int));
                        lemma_hex_value_prefix(d, i - start);
                        assert(hex_value(d) >= 0x1_0000_0000);
                        assert(token_value(tok) is None);
                    }
                    return None;
                }
            },
        }
    }
    assert(t@.subrange(start as int, i as int) =~= d);
    Some(acc as u32)
}

impl AirplayFeatures {
    /// Reads the wire form `"<low>,<high>"`; `None` for anything else.
    pub fn parse(src: &str) -> (r: Option<AirplayFeatures>)
        ensures
            r is Some <==> parse_spec(src@) is Some,
            r is Some ==> r->0.bits == parse_spec(src@)->0,
    {
        let n = src.unicode_len();
        let mut i: usize = 0;
        while i < n && src.get_char(i) != ','
            invariant
                i <= n == src@.len(),
                forall|j: int| 0 <= j < i ==> src@[j] != ',',
            decreases n - i,
        {
            i += 1;
        }
        if i == n {
            assert(!exists|k: int| is_first_comma(src@, k));
            return None;
        }
        assert(is_first_comma(src@, i as int));
        let ghost k = choose|k: int| is_first_comma(src@, k);
        assert(k == i);
        let lo = parse_token(src, 0, i);
        let hi = parse_token(src, i + 1, n);
        match (lo, hi) {
            (Some(lo), Some(hi)) => {
                let bits = lo as u64 + (hi as u64) * 0x1_0000_0000;
                Some(AirplayFeatures { bits })
            },
            _ => None,
        }
    }
}


/// Bit indices of the capabilities that have a name.
pub const SUPPORTS_VIDEO_V1: u32 = 0;
pub const SUPPORTS_PHOTO: u32 = 1;
pub const SUPPORTS_VIDEO_FAIR_PLAY: u32 = 2;
pub const SUPPORTS_VIDEO_VOLUME_CONTROL: u32 = 3;
pub const SUPPORTS_VIDEO_HTTP_LIVE_STREAM: u32 = 4;
pub const SUPPORTS_SLIDESHOW: u32 = 5;
pub const SUPPORTS_FROM_CLOUD_0: u32 = 6;
pub const SUPPORTS_SCREEN: u32 = 7;
pub const SUPPORTS_SCREEN_ROTATE: u32 = 8;
pub const SUPPORTS_AUDIO: u32 = 9;
pub const SUPPORTS_AUDIO_REDUNDANT: u32 = 11;
pub const SUPPORTS_FAIRPLAY_SECURE_AUTH: u32 = 12;
pub const SUPPORTS_PHOTO_CACHING: u32 = 13;
pub const AUTHENTICATION_4: u32 = 14;
pub const METADATA_FEATURES_0: u32 = 15;
pub const METADATA_FEATURES_1: u32 = 16;
pub const METADATA_FEATURES_2: u32 = 17;
pub const AUDIO_FORMATS_0: u32 = 18;
pub const AUDIO_FORMATS_1: u32 = 19;
pub const AUDIO_FORMATS_2: u32 = 20;
pub const AUDIO_FORMATS_3: u32 = 21;
pub const AUTHENTICATION_1: u32 = 23;
pub const AUTHENTICATION_8: u32 = 26;
pub const SUPPORTS_LEGACY_PAIRING: u32 = 27;
pub const HAS_UNIFIED_ADVERTISER_INFO: u32 = 30;
pub const IS_CARPLAY: u32 = 32;
pub const SUPPORTS_VIDEO_QUEUE: u32 = 33;
pub const SUPPORTS_FROM_CLOUD_1: u32 = 34;
pub const SUPPORTS_TLS_PSK: u32 = 35;
pub const SUPPORTS_UNIFIED_MEDIA_CONTROL: u32 = 38;
pub const SUPPORTS_BUFFERED_AUDIO: u32 = 40;
pub const SUPPORTS_PTP: u32 = 41;
pub const SUPPORTS_SCREEN_MULTI_CODEC: u32 = 42;
pub const SUPPORTS_SYSTEM_PAIRING: u32 = 43;
pub const IS_AP_VALERIA_SCREEN_SENDER: u32 = 44;
pub const SUPPORTS_HK_PAIRING_AND_ACCESS_CONTROL: u32 = 46;
pub const SUPPORTS_CORE_UTILS_PAIRING_AND_ENCRYPTION: u32 = 48;
pub const SUPPORTS_VIDEO_V2: u32 = 49;
pub const METADATA_FEATURES_3: u32 = 50;
pub const SUPPORTS_UNIFIED_PAIR_SETUP_AND_MFI: u32 = 51;
pub const SUPPORTS_SET_PEERS_EXTENDED_MESSAGE: u32 = 52;
pub const SUPPORTS_AP_SYNC: u32 = 54;
pub const SUPPORTS_WOL_0: u32 = 55;
pub const SUPPORTS_WOL_1: u32 = 56;
pub const SUPPORTS_HANGDOG_REMOTE_CONTROL: u32 = 58;
pub const SUPPORTS_AUDIO_STREAM_CONNECTION_SETUP: u32 = 59;
pub const SUPPORTS_AUDIO_MEDIA_DATA_CONTROL: u32 = 60;
pub const SUPPORTS_RFC2198_REDUNDANCY: u32 = 61;

/// The name of bit `bit`, for the bits that have one.
pub open spec fn name_of(bit: u32) -> Option<&'static str> {
    match bit {
        0 => Some("SUPPORTS_VIDEO_V1"),
        1 => Some("SUPPORTS_PHOTO"),
        2 => Some("SUPPORTS_VIDEO_FAIR_PLAY"),
        3 => Some("SUPPORTS_VIDEO_VOLUME_CONTROL"),
        4 => Some("SUPPORTS_VIDEO_HTTP_LIVE_STREAM"),
        5 => Some("SUPPORTS_SLIDESHOW"),
        6 => Some("SUPPORTS_FROM_CLOUD_0"),
        7 => Some("SUPPORTS_SCREEN"),
        8 => Some("SUPPORTS_SCREEN_ROTATE"),
        9 => Some("SUPPORTS_AUDIO"),
        11 => Some("SUPPORTS_AUDIO_REDUNDANT"),
        12 => Some("SUPPORTS_FAIRPLAY_SECURE_AUTH"),
        13 => Some("SUPPORTS_PHOTO_CACHING"),
        14 => Some("AUTHENTICATION_4"),
        15 => Some("METADATA_FEATURES_0"),
        16 => Some("METADATA_FEATURES_1"),
        17 => Some("METADATA_FEATURES_2"),
        18 => Some("AUDIO_FORMATS_0"),
        19 => Some("AUDIO_FORMATS_1"),
        20 => Some("AUDIO_FORMATS_2"),
        21 => Some("AUDIO_FORMATS_3"),
        23 => Some("AUTHENTICATION_1"),
        26 => Some("AUTHENTICATION_8"),
        27 => Some("SUPPORTS_LEGACY_PAIRING"),
        30 => Some("HAS_UNIFIED_ADVERTISER_INFO"),
        32 => Some("IS_CARPLAY"),
        33 => Some("SUPPORTS_VIDEO_QUEUE"),
        34 => Some("SUPPORTS_FROM_CLOUD_1"),
        35 => Some("SUPPORTS_TLS_PSK"),
        38 => Some("SUPPORTS_UNIFIED_MEDIA_CONTROL"),
        40 => Some("SUPPORTS_BUFFERED_AUDIO"),
        41 => Some("SUPPORTS_PTP"),
        42 => Some("SUPPORTS_SCREEN_MULTI_CODEC"),
        43 => Some("SUPPORTS_SYSTEM_PAIRING"),
        44 => Some("IS_AP_VALERIA_SCREEN_SENDER"),
        46 => Some("SUPPORTS_HK_PAIRING_AND_ACCESS_CONTROL"),
        48 => Some("SUPPORTS_CORE_UTILS_PAIRING_AND_ENCRYPTION"),
        49 => Some("SUPPORTS_VIDEO_V2"),
        50 => Some("METADATA_FEATURES_3"),
        51 => Some("SUPPORTS_UNIFIED_PAIR_SETUP_AND_MFI"),
        52 => Some("SUPPORTS_SET_PEERS_EXTENDED_MESSAGE"),
        54 => Some("SUPPORTS_AP_SYNC"),
        55 => Some("SUPPORTS_WOL_0"),
        56 => Some("SUPPORTS_WOL_1"),
        58 => Some("SUPPORTS_HANGDOG_REMOTE_CONTROL"),
        59 => Some("SUPPORTS_AUDIO_STREAM_CONNECTION_SETUP"),
        60 => Some("SUPPORTS_AUDIO_MEDIA_DATA_CONTROL"),
        61 => Some("SUPPORTS_RFC2198_REDUNDANCY"),
        _ => None,
    }
}

/// The name of bit `bit`, if it has one.
pub fn flag_name(bit: u32) -> (r: Option<&'static str>)
    ensures
        r == name_of(bit),
{
    match bit {
        0 => {
            Some("SUPPORTS_VIDEO_V1")
        },
        1 => {
            Some("SUPPORTS_PHOTO")
        },
        2 => {
            Some("SUPPORTS_VIDEO_FAIR_PLAY")
        },
        3 => {
            Some("SUPPORTS_VIDEO_VOLUME_CONTROL")
        },
        4 => {
            Some("SUPPORTS_VIDEO_HTTP_LIVE_STREAM")
        },
        5 => {
            Some("SUPPORTS_SLIDESHOW")
        },
        6 => {
            Some("SUPPORTS_FROM_CLOUD_0")
        },
        7 => {
            Some("SUPPORTS_SCREEN")
        },
        8 => {
            Some("SUPPORTS_SCREEN_ROTATE")
        },
        9 => {
            Some("SUPPORTS_AUDIO")
        },
        11 => {
            Some("SUPPORTS_AUDIO_REDUNDANT")
        },
        12 => {
            Some("SUPPORTS_FAIRPLAY_SECURE_AUTH")
        },
        13 => {
            Some("SUPPORTS_PHOTO_CACHING")
        },
        14 => {
            Some("AUTHENTICATION_4")
        },
        15 => {
            Some("METADATA_FEATURES_0")
        },
        16 => {
            Some("METADATA_FEATURES_1")
        },
        17 => {
            Some("METADATA_FEATURES_2")
        },
        18 => {
            Some("AUDIO_FORMATS_0")
        },
        19 => {
            Some("AUDIO_FORMATS_1")
        },
        20 => {
            Some("AUDIO_FORMATS_2")
        },
        21 => {
            Some("AUDIO_FORMATS_3")
        },
        23 => {
            Some("AUTHENTICATION_1")
        },
        26 => {
            Some("AUTHENTICATION_8")
        },
        27 => {
            Some("SUPPORTS_LEGACY_PAIRING")
        },
        30 => {
            Some("HAS_UNIFIED_ADVERTISER_INFO")
        },
        32 => {
            Some("IS_CARPLAY")
        },
        33 => {
            Some("SUPPORTS_VIDEO_QUEUE")
        },
        34 => {
            Some("SUPPORTS_FROM_CLOUD_1")
        },
        35 => {
            Some("SUPPORTS_TLS_PSK")
        },
        38 => {
            Some("SUPPORTS_UNIFIED_MEDIA_CONTROL")
        },
        40 => {
            Some("SUPPORTS_BUFFERED_AUDIO")
        },
        41 => {
            Some("SUPPORTS_PTP")
        },
        42 => {
            Some("SUPPORTS_SCREEN_MULTI_CODEC")
        },
        43 => {
            Some("SUPPORTS_SYSTEM_PAIRING")
        },
        44 => {
            Some("IS_AP_VALERIA_SCREEN_SENDER")
        },
        46 => {
            Some("SUPPORTS_HK_PAIRING_AND_ACCESS_CONTROL")
        },
        48 => {
            Some("SUPPORTS_CORE_UTILS_PAIRING_AND_ENCRYPTION")
        },
        49 => {
            Some("SUPPORTS_VIDEO_V2")
        },
        50 => {
            Some("METADATA_FEATURES_3")
        },
        51 => {
            Some("SUPPORTS_UNIFIED_PAIR_SETUP_AND_MFI")
        },
        52 => {
            Some("SUPPORTS_SET_PEERS_EXTENDED_MESSAGE")
        },
        54 => {
            Some("SUPPORTS_AP_SYNC")
        },
        55 => {
            Some("SUPPORTS_WOL_0")
        },
        56 => {
            Some("SUPPORTS_WOL_1")
        },
        58 => {
            Some("SUPPORTS_HANGDOG_REMOTE_CONTROL")
        },
        59 => {
            Some("SUPPORTS_AUDIO_STREAM_CONNECTION_SETUP")
        },
        60 => {
            Some("SUPPORTS_AUDIO_MEDIA_DATA_CONTROL")
        },
        61 => {
            Some("SUPPORTS_RFC2198_REDUNDANCY")
        },
        _ => None,
    }
}

pub open spec fn has_bit(bits: u64, i: nat) -> bool {
    i < 64 && (bits >> i) & 1 == 1
}

/// The `(name, index)` pairs of the named bits of `bits` below index `n`, in
/// ascending order of index.
pub open spec fn named_below(bits: u64, n: nat) -> Seq<(&'static str, u32)>
    decreases n,
{
    if n == 0 {
        Seq::empty()
    } else {
        let i = (n - 1) as nat;
        let rest = named_below(bits, i);
        if has_bit(bits, i) && name_of(i as u32) is Some {
            rest.push((name_of(i as u32)->0, i as u32))
        } else {
            rest
        }
    }
}

fn push_hex(out: &mut String, n: u64)
    ensures
        final(out)@ == old(out)@ + hex_upper(n as nat),
    decreases n,
{
    if n >= 16 {
        push_hex(out, n / 16);
    }
    out.append(hex_digit_str(n % 16));
    assert(final(out)@ =~= old(out)@ + hex_upper(n as nat));
}

proof fn lemma_upper_digit(d: nat)
    requires
        d < 16,
    ensures
        hex_digit_value(upper_digits()[d as int]) == Some(d),
        upper_digits()[d as int] != ',',
{
    assert(upper_digits()[0] == '0');
    assert(upper_digits()[1] == '1');
    assert(upper_digits()[2] == '2');
    assert(upper_digits()[3] == '3');
    assert(upper_digits()[4] == '4');
    assert(upper_digits()[5] == '5');
    assert(upper_digits()[6] == '6');
    assert(upper_digits()[7] == '7');
    assert(upper_digits()[8] == '8');
    assert(upper_digits()[9] == '9');
    assert(upper_digits()[10] == 'A');
    assert(upper_digits()[11] == 'B');
    assert(upper_digits()[12] == 'C');
    assert(upper_digits()[13] == 'D');
    assert(upper_digits()[14] == 'E');
    assert(upper_digits()[15] == 'F');
}

proof fn lemma_hex_upper(n: nat)
    ensures
        hex_upper(n).len() >= 1,
        all_hex_digits(hex_upper(n)),
        forall|i: int| 0 <= i < hex_upper(n).len() ==> hex_upper(n)[i] != ',',
        hex_value(hex_upper(n)) == n,
    decreases n,
{
    if n < 16 {
        lemma_upper_digit(n);
        assert(hex_upper(n).drop_last() =~= Seq::<char>::empty());
        assert(hex_value(Seq::<char>::empty()) == 0);
    } else {
        lemma_hex_upper(n / 16);
        lemma_upper_digit(n % 16);
        assert(hex_upper(n).drop_last() =~= hex_upper(n / 16));
        assert(hex_value(hex_upper(n)) == 16 * (n / 16) + n % 16);
    }
}

proof fn lemma_token_of_hex(n: nat)
    requires
        n < 0x1_0000_0000,
    ensures
        token_value(seq!['0', 'x'] + hex_upper(n)) == Some(n as u32),
{
    lemma_hex_upper(n);
    let t = seq!['0', 'x'] + hex_upper(n);
    assert(strip_hex_prefix(t) =~= hex_upper(n));
}

/// Formatting a mask and parsing the text back gives the same mask, for
/// every 64-bit value, named bits or not.
pub proof fn lemma_parse_format_round_trip(v: u64)
    ensures
        parse_spec(format_spec(v)) == Some(v),
{
    let lo = v as nat % 0x1_0000_0000;
    let hi = v as nat / 0x1_0000_0000;
    let a = seq!['0', 'x'] + hex_upper(lo);
    let b = seq!['0', 'x'] + hex_upper(hi);
    let s = format_spec(v);
    lemma_hex_upper(lo);
    lemma_hex_upper(hi);
    lemma_token_of_hex(lo);
    lemma_token_of_hex(hi);
    assert(s =~= a + seq![','] + b);
    let i = a.len() as int;
    assert(is_first_comma(s, i));
    let k = choose|k: int| is_first_comma(s, k);
    assert(k == i);
    assert(s.subrange(0, i) =~= a);
    assert(s.subrange(i + 1, s.len() as int) =~= b);
}

impl AirplayFeatures {
    /// The mask with exactly the given bits, known or not.
    pub fn from_bits_retain(bits: u64) -> (r: AirplayFeatures)
        ensures
            r.bits == bits,
    {
        AirplayFeatures { bits }
    }

    /// The mask with the single bit `index`.
    pub fn from_bit(index: u32) -> (r: AirplayFeatures)
        requires
            index < 64,
        ensures
            r.bits == 1u64 << index,
    {
        AirplayFeatures { bits: 1u64 << index }
    }

    pub fn bits(&self) -> (r: u64)
        ensures
            r == self.bits,
    {
        self.bits
    }

    /// The mask with the bits of both.
    pub fn union(self, other: AirplayFeatures) -> (r: AirplayFeatures)
        ensures
            r.bits == self.bits | other.bits,
    {
        AirplayFeatures { bits: self.bits | other.bits }
    }

    /// Whether every bit of `required` is set here.
    pub fn contains(&self, required: AirplayFeatures) -> (r: bool)
        ensures
            r == (self.bits & required.bits == required.bits),
    {
        self.bits & required.bits == required.bits
    }

    /// Whether bit `index` is set.
    pub fn has(&self, index: u32) -> (r: bool)
        requires
            index < 64,
        ensures
            r == has_bit(self.bits, index as nat),
    {
        (self.bits >> index) & 1 == 1
    }

    /// The wire form `"0x<LOW>,0x<HIGH>"`.
    pub fn to_string(&self) -> (r: String)
        ensures
            r@ == format_spec(self.bits),
    {
        let lo = self.bits & 0xFFFF_FFFF;
        let hi = self.bits >> 32;
        let b = self.bits;
        assert(b & 0xFFFF_FFFF == b % 0x1_0000_0000) by (bit_vector);
        assert(b >> 32 == b / 0x1_0000_0000) by (bit_vector);
        let mut s = String::new();
        let p = "0x";
        let c = ",0x";
        proof {
            reveal_strlit("0x");
            reveal_strlit(",0x");
        }
        s.append(p);
        push_hex(&mut s, lo);
        s.append(c);
        push_hex(&mut s, hi);
        assert(s@ =~= format_spec(self.bits));
        s
    }

    /// The `(name, index)` pair of every named bit that is set, in ascending
    /// order of index; bits without a name are left out.
    pub fn iter_names(&self) -> (r: Vec<(&'static str, u32)>)
        ensures
            r@ == named_below(self.bits, 64),
    {
        let mut out: Vec<(&'static str, u32)> = Vec::new();
        let mut i: u32 = 0;
        while i < 64
            invariant
                i <= 64,
                out@ == named_below(self.bits, i as nat),
            decreases 64 - i,
        {
            if self.has(i) {
                match flag_name(i) {
                    Some(name) => out.push((name, i)),
                    None => {},
                }
            }
            i += 1;
        }
        out
    }
}

} // verus!

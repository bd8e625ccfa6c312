//! Framing of the requests sent to the register and ticket servers: a
//! version number, a length and a JSON body, the two numbers each written as
//! a short run of bytes.
use vstd::prelude::*;
use crate::text::{string_from_utf8, lemma_ascii_decodes};

verus! {

/// A 16-bit value with its two bytes exchanged.
pub open spec fn swap_bytes(x: u16) -> u16 {
    ((x & 0x00ff) << 8) | (x >> 8)
}

/// Whether the target stores the low byte of a number first. It is one
/// fixed value for the whole program on a given target, and the proofs do
/// not know which: every property that depends on it is stated for both
/// values, and every result is tied to it.
pub open spec fn target_is_little_endian() -> bool {
    arbitrary()
}

/// What `u16::to_le` returns for `x` on the target: `x` itself on a
/// little-endian target, `x` with its bytes swapped on a big-endian one.
pub open spec fn to_le_on_target(x: u16) -> u16 {
    if target_is_little_endian() {
        x
    } else {
        swap_bytes(x)
    }
}

/// Calls `u16::to_le` (std). As its documentation says, it returns the
/// value itself on a little-endian target and the value with its two bytes
/// swapped on a big-endian one; every call on one target does the same, so
/// the contract states the result over the one target-wide value
/// `target_is_little_endian()`, which no proof can determine.
#[verifier::external_body]
fn u16_to_le(x: u16) -> (r: u16)
    ensures
        r == x || r == swap_bytes(x),
        r == to_le_on_target(x),
{
    x.to_le()
}

/// The bytes by which `parse_num` writes a number, read from its low 32 bits
/// `j`, on a little-endian target (`little_endian`) or a big-endian one.
/// Little-endian: the single byte `j` when `j <= 9`, a zero byte followed by
/// `j` when `10 <= j <= 254`. Big-endian: a single zero byte when `j <= 9`,
/// `j` followed by a zero byte when `10 <= j <= 254`. Nothing otherwise.
pub open spec fn num_frame(num: usize, little_endian: bool) -> Seq<u8> {
    let j = num as u32;
    if j <= 9 {
        if little_endian { seq![j as u8] } else { seq![0u8] }
    } else if j < 255 {
        if little_endian { seq![0u8, j as u8] } else { seq![j as u8, 0u8] }
    } else {
        Seq::empty()
    }
}

/// The characters of `num_frame(num, little_endian)`.
pub open spec fn spec_parse_num(num: usize, little_endian: bool) -> Seq<char> {
    num_frame(num, little_endian).map_values(|b: u8| b as char)
}

/// `parse_num` returns on every number but those whose low 32 bits lie in
/// 128..=254: their two-byte frame holds a byte that is not UTF-8 on its
/// own.
pub open spec fn parse_num_accepts(num: usize) -> bool {
    !(128 <= num as u32 && num as u32 <= 254)
}

/// The values that `u16::to_le` may return for `x`: `x` itself on a
/// little-endian target, `x` with its bytes swapped on a big-endian one.
pub open spec fn to_le_outcome(x: u16, r: u16) -> bool {
    r == x || r == swap_bytes(x)
}

/// The bytes of the frame of `num` built from `num_little`, the low 16 bits
/// of `num` after `u16::to_le`: its low byte when the low 32 bits `j` of
/// `num` are at most 9, its high byte then its low byte when
/// `10 <= j <= 254`, nothing otherwise.
pub open spec fn frame_bytes(num: usize, num_little: u16) -> Seq<u8> {
    let j = num as u32;
    let low = (num_little & 0x00ff) as u8;
    let high = ((num_little >> 8) & 0x00ff) as u8;
    if j <= 9 {
        seq![low]
    } else if j < 255 {
        seq![high, low]
    } else {
        Seq::empty()
    }
}

/// The characters of `frame_bytes(num, num_little)`.
pub open spec fn frame_text(num: usize, num_little: u16) -> Seq<char> {
    frame_bytes(num, num_little).map_values(|b: u8| b as char)
}

/// The frame built from what `u16::to_le` returns is `num_frame` on a
/// little-endian target (no swap) and on a big-endian one (swap).
pub proof fn lemma_frame_on_each_target(num: usize)
    ensures
        frame_bytes(num, num as u16) == num_frame(num, true),
        frame_bytes(num, swap_bytes(num as u16)) == num_frame(num, false),
        frame_text(num, num as u16) == spec_parse_num(num, true),
        frame_text(num, swap_bytes(num as u16)) == spec_parse_num(num, false),
{
    assert((num as u32) < 255 ==> ((num as u16) & 0x00ff) as u8 == (num as u32) as u8)
        by (bit_vector);
    assert((num as u32) < 255 ==> (((num as u16) >> 8) & 0x00ff) as u8 == 0u8) by (bit_vector);
    assert((num as u32) < 255 ==> (swap_bytes(num as u16) & 0x00ff) as u8 == 0u8) by (bit_vector);
    assert((num as u32) < 255 ==> ((swap_bytes(num as u16) >> 8) & 0x00ff) as u8
        == (num as u32) as u8) by (bit_vector);
    assert(frame_bytes(num, num as u16) =~= num_frame(num, true));
    assert(frame_bytes(num, swap_bytes(num as u16)) =~= num_frame(num, false));
}

/// Writes the frame of `num` from `num_little`, the value that `u16::to_le`
/// returned for the low 16 bits of `num` (see `frame_bytes`).
pub fn frame_of(num: usize, num_little: u16) -> (s: String)
    requires
        parse_num_accepts(num),
        to_le_outcome(num as u16, num_little),
    ensures
        s@ == frame_text(num, num_little),
{
    let judge_num: i32 = num as i32;
    let low: u8 = (num_little & 0x00ff) as u8;
    let high: u8 = ((num_little >> 8) & 0x00ff) as u8;
    proof {
        assert(((num as i32) >= 0 && (num as i32) <= 9) <==> (num as u32) <= 9) by (bit_vector);
        assert(((num as i32) > 9 && (num as i32) < 255) <==> (9 < (num as u32) && (num as u32) < 255))
            by (bit_vector);
        lemma_frame_on_each_target(num);
    }
    if judge_num >= 0 && judge_num <= 9 {
        let mut bit_vec: Vec<u8> = Vec::new();
        bit_vec.push(low);
        proof {
            assert(bit_vec@ =~= frame_bytes(num, num_little));
            lemma_ascii_decodes(bit_vec@);
        }
        let bit_str = string_from_utf8(bit_vec);
        match bit_str {
            Some(s) => {
                assert(s@ =~= frame_text(num, num_little));
                s
            },
            None => String::new(),
        }
    } else if judge_num > 9 && judge_num < 255 {
        let mut bit_vec: Vec<u8> = Vec::new();
        bit_vec.push(high);
        bit_vec.push(low);
        proof {
            assert(bit_vec@ =~= frame_bytes(num, num_little));
            lemma_ascii_decodes(bit_vec@);
        }
        let bit_str = string_from_utf8(bit_vec);
        match bit_str {
            Some(s) => {
                assert(s@ =~= frame_text(num, num_little));
                s
            },
            None => String::new(),
        }
    } else {
        let s = String::new();
        assert(s@ =~= frame_text(num, num_little));
        s
    }
}

/// Writes `num` as the text of its frame: `u16::to_le` on its low 16 bits,
/// then `frame_of`. Which of the two `to_le` outcomes a call sees depends on
/// the target; the result is the frame built from that outcome.
pub fn parse_num(num: usize) -> (s: String)
    requires
        parse_num_accepts(num),
    ensures
        exists|num_little: u16|
            to_le_outcome(num as u16, num_little) && s@ == frame_text(num, num_little),
        s@ == spec_parse_num(num, true) || s@ == spec_parse_num(num, false),
        s@ == frame_text(num, to_le_on_target(num as u16)),
        s@ == spec_parse_num(num, target_is_little_endian()),
{
    let num_u16: u16 = num as u16;
    let num_little: u16 = u16_to_le(num_u16);
    proof {
        lemma_frame_on_each_target(num);
    }
    frame_of(num, num_little)
}

/// On a little-endian target a non-empty frame identifies its number: two
/// accepted numbers with the same non-empty frame have the same low 32 bits.
/// On a big-endian target the same holds of two-byte frames (the numbers
/// 0..=9 all share the frame of a single zero byte there).
pub proof fn lemma_frame_identifies_number(a: usize, b: usize, little_endian: bool)
    requires
        parse_num_accepts(a),
        parse_num_accepts(b),
        little_endian ==> spec_parse_num(a, little_endian).len() > 0,
        !little_endian ==> spec_parse_num(a, little_endian).len() == 2,
        spec_parse_num(a, little_endian) == spec_parse_num(b, little_endian),
    ensures
        a as u32 == b as u32,
{
    let fa = num_frame(a, little_endian);
    let fb = num_frame(b, little_endian);
    assert(spec_parse_num(a, little_endian).len() == fa.len());
    assert(spec_parse_num(b, little_endian).len() == fb.len());
    let k: int = if little_endian { fa.len() - 1 } else { 0 };
    assert(0 <= k < fa.len());
    assert(spec_parse_num(a, little_endian)[k] == fa[k] as char);
    assert(spec_parse_num(b, little_endian)[k] == fb[k] as char);
    assert((fa[k] as char) == (fb[k] as char));
    assert(fa[k] == fb[k]);
}

/// The byte order of a frame is the target's: on a little-endian target a
/// frame ends with the number (the low 32 bits `j` of `num`) and a two-byte
/// frame starts with a zero byte; on a big-endian target a two-byte frame
/// starts with the number and ends with a zero byte, and a one-byte frame is
/// a zero byte. Frames have one byte for `j <= 9`, two for `10 <= j <= 254`
/// and none beyond.
pub proof fn law_frame_byte_order(num: usize)
    requires
        parse_num_accepts(num),
    ensures
        ({
            let f = spec_parse_num(num, target_is_little_endian());
            let j = num as u32;
            &&& f.len() == (if j <= 9 { 1int } else if j < 255 { 2int } else { 0int })
            &&& target_is_little_endian() ==> (f.len() > 0 ==> f.last() == (j as u8) as char)
            &&& target_is_little_endian() ==> (f.len() == 2 ==> f[0] == 0u8 as char)
            &&& !target_is_little_endian() ==> (f.len() == 2 ==> f[0] == (j as u8) as char
                && f[1] == 0u8 as char)
            &&& !target_is_little_endian() ==> (f.len() == 1 ==> f[0] == 0u8 as char)
        }),
{
}

/// All two-byte frames on one target put their zero byte in the same place:
/// for any two numbers with two-byte frames, the first frame starts with the
/// zero byte exactly when the second does.
pub proof fn law_frames_share_byte_order(a: usize, b: usize)
    requires
        parse_num_accepts(a),
        parse_num_accepts(b),
        10 <= a as u32 <= 127,
        10 <= b as u32 <= 127,
    ensures
        (spec_parse_num(a, target_is_little_endian())[0] == 0u8 as char)
            == (spec_parse_num(b, target_is_little_endian())[0] == 0u8 as char),
{
    let ca: char = ((a as u32) as u8) as char;
    let cb: char = ((b as u32) as u8) as char;
    assert(ca != 0u8 as char);
    assert(cb != 0u8 as char);
}

/// A request to the register or ticket server: a version, the JSON body and
/// the length announced for it.
pub struct RegisterTicketConfig {
    version: usize,
    json: String,
    length: usize,
}

impl RegisterTicketConfig {
    /// The version written in front of the request.
    pub closed spec fn spec_version(&self) -> usize {
        self.version
    }

    /// The JSON body of the request.
    pub closed spec fn spec_json(&self) -> Seq<char> {
        self.json@
    }

    /// The length written after the version.
    pub closed spec fn spec_length(&self) -> usize {
        self.length
    }

    /// A request text that `work` can produce: the frames of the version and
    /// of the length (each as `parse_num` writes it on a little- or a
    /// big-endian target), then the body.
    pub open spec fn is_request(&self, request: Seq<char>) -> bool {
        exists|version_le: bool, length_le: bool|
            request == spec_parse_num(self.spec_version(), version_le)
                + spec_parse_num(self.spec_length(), length_le) + self.spec_json()
    }

    /// The layout of a request: the version frame, the length frame and the
    /// body, in that order, each frame in the target's byte order. On a
    /// little-endian target each non-empty frame ends with its number; on a
    /// big-endian target each two-byte frame starts with it. The body follows
    /// the two frames unchanged.
    pub proof fn law_request_layout(&self)
        requires
            parse_num_accepts(self.spec_version()),
            parse_num_accepts(self.spec_length()),
        ensures
            ({
                let r = self.spec_request();
                let fv = spec_parse_num(self.spec_version(), target_is_little_endian()).len();
                let fl = spec_parse_num(self.spec_length(), target_is_little_endian()).len();
                let v = (self.spec_version() as u32) as u8;
                let l = (self.spec_length() as u32) as u8;
                &&& r.len() == fv + fl + self.spec_json().len()
                &&& r.skip((fv + fl) as int) == self.spec_json()
                &&& target_is_little_endian() ==> (fv > 0 ==> r[fv - 1] == v as char)
                &&& target_is_little_endian() ==> (fl > 0 ==> r[fv + fl - 1] == l as char)
                &&& !target_is_little_endian() ==> (fv == 2 ==> r[0] == v as char)
                &&& !target_is_little_endian() ==> (fl == 2 ==> r[fv as int] == l as char)
            }),
    {
        law_frame_byte_order(self.spec_version());
        law_frame_byte_order(self.spec_length());
        let r = self.spec_request();
        let fv = spec_parse_num(self.spec_version(), target_is_little_endian());
        let fl = spec_parse_num(self.spec_length(), target_is_little_endian());
        assert(r.skip((fv.len() + fl.len()) as int) =~= self.spec_json());
        if fv.len() > 0 {
            assert(r[fv.len() - 1] == fv[fv.len() - 1]);
        }
        if fl.len() > 0 {
            assert(r[fv.len() + fl.len() - 1] == fl[fl.len() - 1]);
            assert(r[fv.len() as int] == fl[0]);
        }
        if fv.len() == 2 {
            assert(r[0] == fv[0]);
        }
    }

    pub fn new(version: usize, json: String, length: usize) -> (r: RegisterTicketConfig)
        ensures
            r.spec_version() == version,
            r.spec_json() == json@,
            r.spec_length() == length,
    {
        RegisterTicketConfig { version: version, json: json, length: length }
    }

    /// Builds the request text: version frame, length frame, JSON body.
    /// The request text that `work` produces on the target: the frames of
    /// the version and of the length in the target's byte order, then the
    /// body.
    pub open spec fn spec_request(&self) -> Seq<char> {
        spec_parse_num(self.spec_version(), target_is_little_endian())
            + spec_parse_num(self.spec_length(), target_is_little_endian()) + self.spec_json()
    }

    pub fn work(&mut self) -> (request: String)
        requires
            parse_num_accepts(old(self).spec_version()),
            parse_num_accepts(old(self).spec_length()),
        ensures
            old(self).is_request(request@),
            request@ == old(self).spec_request(),
            *final(self) == *old(self),
    {
        let str_version = parse_num(self.version);
        let str_length = parse_num(self.length);
        let mut str_json = String::new();
        str_json.append(self.json.as_str());
        let mut str_request = str_version;
        str_request.append(str_length.as_str());
        str_request.append(str_json.as_str());
        proof {
            let a: bool = str_version@ == spec_parse_num(self.version, true);
            let b: bool = str_length@ == spec_parse_num(self.length, true);
            assert(str_request@ =~= spec_parse_num(self.version, a) + spec_parse_num(self.length, b)
                + self.json@);
            assert(str_request@ =~= old(self).spec_request());
        }
        str_request
    }
}

} // verus!

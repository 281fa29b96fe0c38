//! The IR camera: which device to use.
use vstd::prelude::*;
use vstd::string::*;

use crate::text::{decimal, lex_le, lemma_lex_total, lemma_lex_trans, push_decimal, str_le, views};

verus! {

broadcast use vstd::seq_lib::group_to_multiset_ensures;

/// The device opened when no grayscale camera is found.
pub const DEFAULT_DEVICE: &'static str = "/dev/video2";

/// How many video devices (`/dev/video0` and up) are scanned.
pub const SCANNED_DEVICES: u32 = 16;

/// The FourCC codes of 8-bit grayscale: `Y800` and `GREY` (some cameras
/// report the latter for the same format).
pub open spec fn is_grayscale8_code(code: Seq<u8>) -> bool {
    code == seq![89u8, 56u8, 48u8, 48u8] || code == seq![71u8, 82u8, 69u8, 89u8]
}

/// Whether a camera format with FourCC `code` delivers 8-bit grayscale
/// frames (`Y800` or `GREY`).
pub fn is_grayscale8(code: [u8; 4]) -> (b: bool)
    ensures
        b == is_grayscale8_code(code@),
        b == (code@ == seq![89u8, 56u8, 48u8, 48u8] || code@ == seq![71u8, 82u8, 69u8, 89u8]),
{
    // `Y800`
    let y800 = code[0] == 89u8 && code[1] == 56u8 && code[2] == 48u8 && code[3] == 48u8;
    // `GREY`
    let grey = code[0] == 71u8 && code[1] == 82u8 && code[2] == 69u8 && code[3] == 89u8;
    assert(y800 <==> code@ == seq![89u8, 56u8, 48u8, 48u8]) by {
        if code@ == seq![89u8, 56u8, 48u8, 48u8] {
            assert(code@[0] == 89u8);
        }
        if y800 {
            assert(code@ =~= seq![89u8, 56u8, 48u8, 48u8]);
        }
    }
    assert(grey <==> code@ == seq![71u8, 82u8, 69u8, 89u8]) by {
        if code@ == seq![71u8, 82u8, 69u8, 89u8] {
            assert(code@[0] == 71u8);
        }
        if grey {
            assert(code@ =~= seq![71u8, 82u8, 69u8, 89u8]);
        }
    }
    y800 || grey
}

/// The path of the `i`-th video device.
pub open spec fn video_device(i: nat) -> Seq<char> {
    "/dev/video"@ + decimal(i)
}

/// The path of the `i`-th video device: `/dev/video<i>`.
pub fn video_device_path(i: u32) -> (p: String)
    ensures
        p@ == video_device(i as nat),
{
    let mut p = String::from_str("/dev/video");
    push_decimal(&mut p, i as u64);
    p
}

/// Whether the strings are in lexicographic order.
pub open spec fn sorted(s: Seq<Seq<char>>) -> bool {
    forall|i: int, j: int| 0 <= i < j < s.len() ==> lex_le(#[trigger] s[i], #[trigger] s[j])
}

/// The paths in lexicographic order, as `sort` on a `Vec<String>` orders
/// them.
pub fn sort_paths(paths: Vec<String>) -> (r: Vec<String>)
    ensures
        sorted(views(r@)),
        views(r@).to_multiset() == views(paths@).to_multiset(),
{
    let mut r: Vec<String> = Vec::new();
    let mut k: usize = 0;
    while k < paths.len()
        invariant
            k <= paths.len(),
            sorted(views(r@)),
            views(r@).to_multiset() == views(paths@.take(k as int)).to_multiset(),
        decreases paths.len() - k,
    {
        let s = paths[k].clone();
        let mut pos: usize = 0;
        while pos < r.len() && str_le(r[pos].as_str(), s.as_str())
            invariant
                pos <= r.len(),
                s@ == paths@[k as int]@,
                forall|m: int| 0 <= m < pos ==> lex_le(#[trigger] r@[m]@, s@),
            decreases r.len() - pos,
        {
            pos = pos + 1;
        }
        let ghost old_views = views(r@);
        proof {
            if pos < r.len() {
                lemma_lex_total(r@[pos as int]@, s@);
            }
        }
        r.insert(pos, s);
        proof {
            let nv = views(r@);
            assert(nv =~= old_views.insert(pos as int, s@));
            assert forall|i: int, j: int| 0 <= i < j < nv.len() implies lex_le(
                #[trigger] nv[i],
                #[trigger] nv[j],
            ) by {
                if j < pos {
                    assert(lex_le(old_views[i], old_views[j]));
                } else if j == pos {
                    assert(nv[i] == old_views[i]);
                } else if i < pos {
                    assert(nv[j] == old_views[j - 1]);
                    assert(lex_le(old_views[i], s@));
                    assert(lex_le(s@, old_views[pos as int]));
                    if j - 1 > pos {
                        assert(lex_le(old_views[pos as int], old_views[j - 1]));
                        lemma_lex_trans(s@, old_views[pos as int], old_views[j - 1]);
                    }
                    lemma_lex_trans(old_views[i], s@, old_views[j - 1]);
                } else if i == pos {
                    assert(nv[j] == old_views[j - 1]);
                    if j - 1 > pos {
                        assert(lex_le(old_views[pos as int], old_views[j - 1]));
                        lemma_lex_trans(s@, old_views[pos as int], old_views[j - 1]);
                    }
                } else {
                    assert(lex_le(old_views[i - 1], old_views[j - 1]));
                }
            }
            assert(views(paths@.take(k + 1)) =~= views(paths@.take(k as int)).push(s@));
        }
        k = k + 1;
    }
    assert(paths@.take(paths.len() as int) == paths@);
    r
}

/// The paths of the scanned video devices.
pub open spec fn scanned_devices() -> Seq<Seq<char>> {
    Seq::new(SCANNED_DEVICES as nat, |i: int| video_device(i as nat))
}

/// The paths of the scanned video devices, `/dev/video0` to
/// `/dev/video15`, in the order in which they are probed for a grayscale
/// camera: lexicographic order, so `/dev/video10` comes before
/// `/dev/video2`.
pub fn camera_candidates() -> (r: Vec<String>)
    ensures
        sorted(views(r@)),
        views(r@).to_multiset() == scanned_devices().to_multiset(),
{
    let mut all: Vec<String> = Vec::new();
    let mut i: u32 = 0;
    while i < SCANNED_DEVICES
        invariant
            i <= SCANNED_DEVICES,
            views(all@) == scanned_devices().take(i as int),
        decreases SCANNED_DEVICES - i,
    {
        let p = video_device_path(i);
        let ghost prev = all@;
        all.push(p);
        assert(views(all@) =~= views(prev).push(p@));
        assert(scanned_devices().take(i + 1) =~= scanned_devices().take(i as int).push(
            video_device(i as nat),
        ));
        i = i + 1;
    }
    assert(scanned_devices().take(SCANNED_DEVICES as int) == scanned_devices());
    sort_paths(all)
}

/// Exactly two FourCC codes are 8-bit grayscale: `Y800` (bytes 89 56 48 48)
/// and `GREY` (bytes 71 82 69 89). Any other code, such as the 10-, 12- or
/// 16-bit grayscale formats `Y10 `, `Y12 ` and `Y16 `, is not.
pub proof fn lemma_grayscale_codes(code: Seq<u8>)
    ensures
        is_grayscale8_code(code) <==> (code == seq![89u8, 56u8, 48u8, 48u8] || code == seq![
            71u8,
            82u8,
            69u8,
            89u8,
        ]),
        code.len() == 4 && code[0] == 89u8 && code[1] != 56u8 ==> !is_grayscale8_code(code),
{
    if code.len() == 4 && code[0] == 89u8 && code[1] != 56u8 {
        assert(code != seq![89u8, 56u8, 48u8, 48u8]) by {
            assert(seq![89u8, 56u8, 48u8, 48u8][1] == 56u8);
        }
        assert(code != seq![71u8, 82u8, 69u8, 89u8]) by {
            assert(seq![71u8, 82u8, 69u8, 89u8][0] == 71u8);
        }
    }
}

/// The scanned devices are `/dev/video0` to `/dev/video15`.
pub proof fn lemma_scanned_devices()
    ensures
        scanned_devices().len() == 16,
        forall|i: int| 0 <= i < 16 ==> #[trigger] scanned_devices()[i] == "/dev/video"@ + decimal(i as nat),
{
}

} // verus!

//! The per-render-pass header accumulator: registered font families, emitted
//! style fragments, the active responsive breakpoint, and the unique-id
//! generator.

use vstd::prelude::*;
use vstd::string::StringExecFns;
use crate::strings::{norm_seq, trim_seq, trim, normalized, chars_eq};
use crate::numbers::{dec_seq, push_decimal};

verus! {

/// The comma-separated segments of a font-family list.
pub open spec fn split_commas_acc(s: Seq<char>, cur: Seq<char>, acc: Seq<Seq<char>>) -> Seq<
    Seq<char>,
>
    decreases s.len(),
{
    if s.len() == 0 {
        acc.push(cur)
    } else if s[0] == ',' {
        split_commas_acc(s.skip(1), Seq::empty(), acc.push(cur))
    } else {
        split_commas_acc(s.skip(1), cur.push(s[0]), acc)
    }
}

/// The comma-separated segments of a font-family list.
pub open spec fn split_commas(s: Seq<char>) -> Seq<Seq<char>> {
    split_commas_acc(s, Seq::empty(), Seq::empty())
}

/// `fonts` after one family is registered: the trimmed segment is appended
/// unless it is empty or an already-registered family equals it under
/// case- and whitespace-insensitive comparison.
pub open spec fn register_spec(fonts: Seq<Seq<char>>, seg: Seq<char>) -> Seq<Seq<char>> {
    let t = trim_seq(seg);
    if t.len() == 0 || exists|i: int| 0 <= i < fonts.len() && norm_seq(fonts[i]) == norm_seq(t) {
        fonts
    } else {
        fonts.push(t)
    }
}

/// `fonts` after every segment of `fams` is registered, in order.
pub open spec fn register_all_spec(fonts: Seq<Seq<char>>, fams: Seq<Seq<char>>) -> Seq<Seq<char>>
    decreases fams.len(),
{
    if fams.len() == 0 {
        fonts
    } else {
        register_all_spec(register_spec(fonts, fams[0]), fams.skip(1))
    }
}

/// The pass-unique id with ordinal `n`.
pub open spec fn id_of(n: nat) -> Seq<char> {
    "mj-id-"@ + dec_seq(n)
}

/// Side-channel state accumulated over one render pass.
pub struct Header {
    fonts: Vec<String>,
    styles: Vec<String>,
    breakpoint: u32,
    id_counter: u64,
}

impl Header {
    /// Registered font families, in first-registration order.
    pub closed spec fn fonts_view(self) -> Seq<Seq<char>> {
        Seq::new(self.fonts@.len(), |i: int| self.fonts@[i]@)
    }

    /// Emitted style fragments, in emission order.
    pub closed spec fn styles_view(self) -> Seq<Seq<char>> {
        Seq::new(self.styles@.len(), |i: int| self.styles@[i]@)
    }

    /// The active responsive breakpoint, in pixels.
    pub closed spec fn breakpoint_spec(self) -> u32 {
        self.breakpoint
    }

    /// Ordinal of the next generated id.
    pub closed spec fn id_counter_spec(self) -> nat {
        self.id_counter as nat
    }

    /// A fresh header for one render pass.
    pub fn new(breakpoint: u32) -> (r: Header)
        ensures
            r.fonts_view() == Seq::<Seq<char>>::empty(),
            r.styles_view() == Seq::<Seq<char>>::empty(),
            r.breakpoint_spec() == breakpoint,
            r.id_counter_spec() == 0,
    {
        let r = Header { fonts: Vec::new(), styles: Vec::new(), breakpoint, id_counter: 0 };
        proof {
            assert(r.fonts_view() =~= Seq::<Seq<char>>::empty());
            assert(r.styles_view() =~= Seq::<Seq<char>>::empty());
        }
        r
    }

    /// The active responsive breakpoint, in pixels.
    pub fn breakpoint(&self) -> (r: u32)
        ensures
            r == self.breakpoint_spec(),
    {
        self.breakpoint
    }

    /// The registered font families.
    pub fn fonts(&self) -> (r: &Vec<String>)
        ensures
            r.deep_view() == self.fonts_view(),
    {
        proof {
            assert(self.fonts.deep_view() =~= self.fonts_view());
        }
        &self.fonts
    }

    /// The emitted style fragments.
    pub fn styles(&self) -> (r: &Vec<String>)
        ensures
            r.deep_view() == self.styles_view(),
    {
        proof {
            assert(self.styles.deep_view() =~= self.styles_view());
        }
        &self.styles
    }

    /// Registers one font family: ignored when blank
    /// or already present under case- and whitespace-insensitive comparison.
    pub fn register_font_family(&mut self, seg: &str)
        ensures
            final(self).fonts_view() == register_spec(old(self).fonts_view(), seg@),
            final(self).styles_view() == old(self).styles_view(),
            final(self).breakpoint_spec() == old(self).breakpoint_spec(),
            final(self).id_counter_spec() == old(self).id_counter_spec(),
    {
        let t = trim(seg);
        if t.as_str().unicode_len() == 0 {
            return ;
        }
        let tn = normalized(t.as_str());
        let n = self.fonts.len();
        let mut i: usize = 0;
        while i < n
            invariant
                n == self.fonts@.len(),
                i <= n,
                t@ == trim_seq(seg@),
                tn@ == norm_seq(t@),
                forall|j: int|
                    0 <= j < i ==> norm_seq(#[trigger] self.fonts_view()[j]) != norm_seq(t@),
            decreases n - i,
        {
            let fname = normalized(self.fonts[i].as_str());
            if chars_eq(&fname, &tn) {
                proof {
                    assert(norm_seq(self.fonts_view()[i as int]) == norm_seq(trim_seq(seg@)));
                }
                return ;
            }
            i = i + 1;
        }
        let ghost pre = self.fonts_view();
        self.fonts.push(t);
        proof {
            assert(self.fonts_view() =~= pre.push(trim_seq(seg@)));
        }
    }

    /// Registers every family of a comma-separated font list: each distinct family is added once.
    pub fn add_font_families(&mut self, value: &str)
        ensures
            final(self).fonts_view() == register_all_spec(
                old(self).fonts_view(),
                split_commas(value@),
            ),
            final(self).styles_view() == old(self).styles_view(),
            final(self).breakpoint_spec() == old(self).breakpoint_spec(),
            final(self).id_counter_spec() == old(self).id_counter_spec(),
    {
        let segs = split_comma_segments(value);
        let n = segs.len();
        let mut i: usize = 0;
        proof {
            assert(segs.deep_view().skip(0) =~= segs.deep_view());
        }
        while i < n
            invariant
                n == segs@.len(),
                i <= n,
                segs.deep_view() == split_commas(value@),
                self.styles_view() == old(self).styles_view(),
                self.breakpoint_spec() == old(self).breakpoint_spec(),
                self.id_counter_spec() == old(self).id_counter_spec(),
                register_all_spec(old(self).fonts_view(), split_commas(value@))
                    == register_all_spec(self.fonts_view(), segs.deep_view().skip(i as int)),
            decreases n - i,
        {
            proof {
                assert(segs.deep_view().skip(i as int)[0] == segs@[i as int]@);
                assert(segs.deep_view().skip(i as int).skip(1) =~= segs.deep_view().skip(
                    i as int + 1,
                ));
            }
            self.register_font_family(segs[i].as_str());
            i = i + 1;
        }
        proof {
            assert(segs.deep_view().skip(n as int) =~= Seq::<Seq<char>>::empty());
        }
    }

    /// Registers the families when a font list resolved to a value.
    pub fn maybe_add_font_families(&mut self, value: Option<String>)
        ensures
            final(self).fonts_view() == match value {
                Some(v) => register_all_spec(old(self).fonts_view(), split_commas(v@)),
                None => old(self).fonts_view(),
            },
            final(self).styles_view() == old(self).styles_view(),
            final(self).breakpoint_spec() == old(self).breakpoint_spec(),
            final(self).id_counter_spec() == old(self).id_counter_spec(),
    {
        if let Some(v) = value {
            self.add_font_families(v.as_str());
        }
    }

    /// Appends one generated CSS fragment.
    pub fn add_style(&mut self, style: String)
        ensures
            final(self).styles_view() == old(self).styles_view().push(style@),
            final(self).fonts_view() == old(self).fonts_view(),
            final(self).breakpoint_spec() == old(self).breakpoint_spec(),
            final(self).id_counter_spec() == old(self).id_counter_spec(),
    {
        let ghost pre = self.styles_view();
        self.styles.push(style);
        proof {
            assert(self.styles_view() =~= pre.push(style@));
        }
    }

    /// Returns a fresh pass-unique id.
    pub fn next_id(&mut self) -> (r: String)
        requires
            old(self).id_counter_spec() < u64::MAX,
        ensures
            r@ == id_of(old(self).id_counter_spec()),
            final(self).id_counter_spec() == old(self).id_counter_spec() + 1,
            final(self).fonts_view() == old(self).fonts_view(),
            final(self).styles_view() == old(self).styles_view(),
            final(self).breakpoint_spec() == old(self).breakpoint_spec(),
    {
        let mut id = String::new();
        id.append("mj-id-");
        push_decimal(&mut id, self.id_counter);
        self.id_counter = self.id_counter + 1;
        proof {
            assert(id@ =~= id_of(old(self).id_counter_spec()));
        }
        id
    }
}

/// Splits a font list at commas; segments keep their surrounding whitespace.
fn split_comma_segments(s: &str) -> (r: Vec<String>)
    ensures
        r.deep_view() == split_commas(s@),
{
    let n = s.unicode_len();
    let mut acc: Vec<String> = Vec::new();
    let mut i: usize = 0;
    let mut start: usize = 0;
    proof {
        assert(s@.skip(0) =~= s@);
        assert(acc.deep_view() =~~= Seq::<Seq<char>>::empty());
        assert(s@.subrange(0, 0) =~= Seq::<char>::empty());
    }
    while i < n
        invariant
            n == s@.len(),
            start <= i <= n,
            split_commas(s@) == split_commas_acc(
                s@.skip(i as int),
                s@.subrange(start as int, i as int),
                acc.deep_view(),
            ),
        decreases n - i,
    {
        let ghost cur = s@.subrange(start as int, i as int);
        let c = s.get_char(i);
        proof {
            assert(s@.skip(i as int)[0] == s@[i as int]);
            assert(s@.skip(i as int).skip(1) =~= s@.skip(i as int + 1));
        }
        if c == ',' {
            let tok = s.substring_char(start, i).to_owned();
            let ghost pre = acc.deep_view();
            acc.push(tok);
            proof {
                assert(acc.deep_view() =~~= pre.push(cur));
                assert(s@.subrange(i as int + 1, i as int + 1) =~= Seq::<char>::empty());
            }
            start = i + 1;
        } else {
            proof {
                assert(cur.push(s@[i as int]) =~= s@.subrange(start as int, i as int + 1));
            }
        }
        i = i + 1;
    }
    let tok = s.substring_char(start, n).to_owned();
    let ghost pre = acc.deep_view();
    acc.push(tok);
    proof {
        assert(s@.skip(n as int) =~= Seq::<char>::empty());
        assert(acc.deep_view() =~~= pre.push(s@.subrange(start as int, n as int)));
    }
    acc
}

/// Distinct ordinals give distinct generated ids.
pub proof fn lemma_id_of_injective(a: nat, b: nat)
    requires
        a != b,
    ensures
        id_of(a) != id_of(b),
{
    reveal_strlit("mj-id-");
    if id_of(a) == id_of(b) {
        assert(id_of(a).skip(6) =~= dec_seq(a));
        assert(id_of(b).skip(6) =~= dec_seq(b));
        crate::numbers::lemma_dec_seq_injective(a, b);
    }
}

} // verus!

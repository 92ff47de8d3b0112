//! Inline images: where they are placed, and the commands of the kitty
//! graphics protocol.
use crate::text::chars_of;
use std::collections::HashMap;
use vstd::prelude::*;
use vstd::std_specs::iter::IteratorSpec;

verus! {

broadcast use vstd::std_specs::hash::group_hash_axioms;

#[derive(Debug, Clone)]
pub struct ImagePlacement {
    pub id: u32,
    pub width: u32,
    pub height: u32,
    pub row: usize,
    pub col: usize,
    /// Raw RGBA pixels.
    pub data: Vec<u8>,
}

/// Image manager: stores placed images for rendering.
pub struct ImageManager {
    pub images: HashMap<u32, ImagePlacement>,
    pub next_id: u32,
}

impl ImageManager {
    /// Each image is stored under its own id, and the ids in use are below
    /// the next one to be given.
    pub open spec fn wf(&self) -> bool {
        forall|id: u32| #[trigger]
            self.images@.contains_key(id) ==> self.images@[id].id == id && id < self.next_id
    }

    pub fn new() -> (m: ImageManager)
        ensures
            m.wf(),
            m.images@ == Map::<u32, ImagePlacement>::empty(),
            m.next_id == 1,
    {
        ImageManager { images: HashMap::new(), next_id: 1 }
    }

    /// Place an image at the given grid position.
    pub fn place(&mut self, width: u32, height: u32, row: usize, col: usize, data: Vec<u8>) -> (id:
        u32)
        requires
            old(self).wf(),
            old(self).next_id < u32::MAX,
        ensures
            final(self).wf(),
            id == old(self).next_id,
            final(self).next_id == id + 1,
            final(self).images@ == old(self).images@.insert(
                id,
                ImagePlacement { id, width, height, row, col, data },
            ),
    {
        let id = self.next_id;
        self.next_id += 1;
        self.images.insert(id, ImagePlacement { id, width, height, row, col, data });
        id
    }

    /// Remove an image by ID.
    pub fn remove(&mut self, id: u32) -> (removed: bool)
        requires
            old(self).wf(),
        ensures
            final(self).wf(),
            removed == old(self).images@.contains_key(id),
            final(self).images@ == old(self).images@.remove(id),
            final(self).next_id == old(self).next_id,
    {
        self.images.remove(&id).is_some()
    }

    /// Get all visible images (for rendering): those whose row lies in
    /// `scroll_top ..= scroll_bottom`, in no particular order.
    pub fn visible(&self, scroll_top: usize, scroll_bottom: usize) -> (out: Vec<&ImagePlacement>)
        ensures
            forall|i: int|
                0 <= i < out@.len() ==> self.images@.values().contains(*#[trigger] out@[i])
                    && scroll_top <= out@[i].row <= scroll_bottom,
            forall|p: ImagePlacement|
                self.images@.values().contains(p) && scroll_top <= p.row <= scroll_bottom
                    ==> exists|i: int| 0 <= i < out@.len() && *#[trigger] out@[i] == p,
    {
        let mut out: Vec<&ImagePlacement> = Vec::new();
        let ghost all = vstd::std_specs::hash::spec_values_iter(&self.images).remaining();
        let ghost mut seen: int = 0;
        for img in it: self.images.values()
            invariant
                it.seq() == all,
                seen == it.index(),
                all.unref().to_set() == self.images@.values(),
                forall|i: int|
                    0 <= i < out@.len() ==> self.images@.values().contains(*#[trigger] out@[i])
                        && scroll_top <= out@[i].row <= scroll_bottom,
                forall|k: int|
                    0 <= k < seen && scroll_top <= (#[trigger] all[k]).row <= scroll_bottom
                        ==> exists|i: int| 0 <= i < out@.len() && out@[i] == all[k],
        {
            assert(all.unref()[seen] == *img);
            assert(all.unref().to_set().contains(*img));
            let ghost before = out@;
            if img.row >= scroll_top && img.row <= scroll_bottom {
                out.push(img);
                assert(out@[before.len() as int] == all[seen]);
            }
            assert forall|k: int|
                0 <= k < seen + 1 && scroll_top <= (#[trigger] all[k]).row
                    <= scroll_bottom implies exists|i: int|
                0 <= i < out@.len() && out@[i] == all[k] by {
                if k < seen {
                    let i = choose|i: int| 0 <= i < before.len() && before[i] == all[k];
                    assert(out@[i] == all[k]);
                }
            }
            proof {
                seen = seen + 1;
            }
        }
        assert(seen == all.len());
        assert forall|p: ImagePlacement|
            self.images@.values().contains(p) && scroll_top <= p.row
                <= scroll_bottom implies exists|i: int|
            0 <= i < out@.len() && *#[trigger] out@[i] == p by {
            assert(all.unref().to_set().contains(p));
            let k = choose|k: int| 0 <= k < all.unref().len() && all.unref()[k] == p;
            assert(*all[k] == p);
            let i = choose|i: int| 0 <= i < out@.len() && out@[i] == all[k];
            assert(*out@[i] == p);
        }
        out
    }

    /// Clear all images.
    pub fn clear(&mut self)
        ensures
            final(self).wf(),
            final(self).images@ == Map::<u32, ImagePlacement>::empty(),
            final(self).next_id == old(self).next_id,
    {
        self.images.clear();
    }

    pub fn count(&self) -> (n: usize)
        ensures
            n == self.images@.len(),
    {
        self.images.len()
    }
}

#[derive(Debug, Clone, PartialEq, Eq)]
pub enum KittyCommand {
    Transmit,
    Place,
    Delete,
    Query,
}

/// The index of the first `sep` in `s`, or the length of `s` where there is
/// none.
pub open spec fn first_sep(s: Seq<char>, sep: char) -> int
    decreases s.len(),
{
    if s.len() == 0 {
        0
    } else {
        let before = first_sep(s.drop_last(), sep);
        if before < s.len() - 1 || s.last() != sep {
            if before < s.len() - 1 {
                before
            } else {
                s.len() as int
            }
        } else {
            s.len() - 1
        }
    }
}

/// Where the last of the comma-separated segments of `s` starts.
pub open spec fn last_segment_start(s: Seq<char>) -> int
    decreases s.len(),
{
    if s.len() == 0 {
        0
    } else if s.last() == ',' {
        s.len() as int
    } else {
        last_segment_start(s.drop_last())
    }
}

/// The action that the comma-separated `key=value` pairs of `s` name: the
/// value of the last pair whose key is `a`, or `t` where there is none.
pub open spec fn action_of(s: Seq<char>) -> Seq<char>
    decreases s.len(),
{
    let start = last_segment_start(s);
    if start < 0 || start > s.len() {
        seq!['t']
    } else {
        let segment = s.skip(start);
        if segment.len() >= 2 && segment[0] == 'a' && segment[1] == '=' {
            segment.skip(2)
        } else if start == 0 {
            seq!['t']
        } else {
            action_of(s.take(start - 1))
        }
    }
}

/// The command that an action of the kitty graphics protocol names.
pub open spec fn command_of(action: Seq<char>) -> Option<KittyCommand> {
    if action == seq!['t'] || action == seq!['T'] {
        Some(KittyCommand::Transmit)
    } else if action == seq!['p'] {
        Some(KittyCommand::Place)
    } else if action == seq!['d'] {
        Some(KittyCommand::Delete)
    } else if action == seq!['q'] {
        Some(KittyCommand::Query)
    } else {
        None
    }
}

/// The command of a kitty graphics payload `key=value,key=value;DATA`: the
/// one that the pairs before the first `;` name.
pub open spec fn kitty_command(payload: Seq<char>) -> Option<KittyCommand> {
    command_of(action_of(payload.take(first_sep(payload, ';'))))
}

proof fn lemma_single(a: char, b: char)
    ensures
        (seq![a] == seq![b]) == (a == b),
{
    if a != b {
        assert(seq![a][0] != seq![b][0]);
    }
}

fn find_first(s: &Vec<char>, sep: char) -> (at: usize)
    ensures
        at == first_sep(s@, sep),
        at <= s@.len(),
{
    let mut found: usize = 0;
    let mut i: usize = 0;
    assert(s@.take(0) =~= Seq::<char>::empty());
    while i < s.len()
        invariant
            i <= s@.len(),
            found <= i,
            found == first_sep(s@.take(i as int), sep),
        decreases s.len() - i,
    {
        assert(s@.take(i + 1).drop_last() =~= s@.take(i as int));
        if found == i && s[i] != sep {
            found = i + 1;
        }
        i += 1;
    }
    assert(s@.take(s.len() as int) =~= s@);
    found
}

fn find_segment_start(s: &Vec<char>, end: usize) -> (start: usize)
    requires
        end <= s@.len(),
    ensures
        start == last_segment_start(s@.take(end as int)),
        start <= end,
{
    let mut i: usize = end;
    while i > 0 && s[i - 1] != ','
        invariant
            i <= end <= s@.len(),
            last_segment_start(s@.take(i as int)) == last_segment_start(s@.take(end as int)),
        decreases i,
    {
        assert(s@.take(i as int).drop_last() =~= s@.take(i - 1));
        i -= 1;
    }
    i
}

/// Parse Kitty graphics protocol APC sequence.
/// Format: `\x1b_Gkey=value,key=value;BASE64_DATA\x1b\\`
pub fn parse_kitty_graphics(payload: &str) -> (r: Option<KittyCommand>)
    ensures
        r == kitty_command(payload@),
{
    let chars = chars_of(payload);
    let stop = find_first(&chars, ';');
    let ghost params = chars@.take(stop as int);
    let mut end: usize = stop;
    loop
        invariant
            end <= stop <= chars@.len(),
            chars@ == payload@,
            stop == first_sep(chars@, ';'),
            params == chars@.take(stop as int),
            action_of(chars@.take(end as int)) == action_of(params),
        decreases end,
    {
        let start = find_segment_start(&chars, end);
        let ghost head = chars@.take(end as int);
        let ghost segment = head.skip(start as int);
        if end - start >= 2 && chars[start] == 'a' && chars[start + 1] == '=' {
            assert(segment[0] == 'a' && segment[1] == '=');
            let n = end - (start + 2);
            if n != 1 {
                assert(segment.skip(2).len() != 1);
                return None;
            }
            let c = chars[start + 2];
            assert(segment.skip(2) =~= seq![c]);
            proof {
                lemma_single(c, 't');
                lemma_single(c, 'T');
                lemma_single(c, 'p');
                lemma_single(c, 'd');
                lemma_single(c, 'q');
            }
            return if c == 't' || c == 'T' {
                Some(KittyCommand::Transmit)
            } else if c == 'p' {
                Some(KittyCommand::Place)
            } else if c == 'd' {
                Some(KittyCommand::Delete)
            } else if c == 'q' {
                Some(KittyCommand::Query)
            } else {
                None
            };
        }
        assert(!(segment.len() >= 2 && segment[0] == 'a' && segment[1] == '=')) by {
            if segment.len() >= 2 {
                assert(segment[0] == chars@[start as int]);
                assert(segment[1] == chars@[start + 1]);
            }
        }
        if start == 0 {
            return Some(KittyCommand::Transmit);
        }
        assert(head.take(start - 1) =~= chars@.take(start - 1));
        end = start - 1;
    }
}

} // verus!

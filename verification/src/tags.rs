//! The tags of attached images: each is one token of the composer.

use vstd::prelude::*;
use crate::clipboard::{image_marker, ImageModel, StagedImage};
use crate::model::{views, Modeled};
use crate::text::{cat3, chars_of, count_of, decimal, find, index_of, occurs, occurs_at};

verus! {

broadcast use vstd::string::group_string_axioms;

/// The tag of an image, by its place in a text.
#[derive(Debug, Clone, Copy, PartialEq, Eq, Structural)]
pub struct Tag {
    pub start: usize,
    /// The number of the image.
    pub id: usize,
}

impl Tag {
    pub open spec fn end(self) -> int {
        self.start + image_marker(self.id).len()
    }

    /// Whether a place lies inside the tag, and not at one of its ends.
    pub open spec fn holds(self, p: int) -> bool {
        self.start < p < self.end()
    }

    /// Whether the tag stands in a text.
    pub open spec fn stands(self, text: Seq<char>) -> bool {
        occurs_at(text, image_marker(self.id), self.start as int)
    }

    /// Whether a change from one place to another leaves the tag alone.
    pub open spec fn outside(self, from: int, to: int) -> bool {
        self.end() <= from || to <= self.start
    }
}

/// Whether every tag stands in a text.
pub open spec fn all_stand(tags: Seq<Tag>, text: Seq<char>) -> bool {
    forall|k: int| 0 <= k < tags.len() ==> (#[trigger] tags[k]).stands(text)
}

/// Whether a place lies inside no tag.
pub open spec fn in_no_tag(tags: Seq<Tag>, p: int) -> bool {
    forall|k: int| 0 <= k < tags.len() ==> !(#[trigger] tags[k]).holds(p)
}

/// A place, moved back to the start of the tag that it lies in.
pub open spec fn snapped_back(tags: Seq<Tag>, p: int) -> int
    decreases tags.len(),
{
    if tags.len() == 0 {
        p
    } else if tags.last().holds(p) {
        tags.last().start as int
    } else {
        snapped_back(tags.drop_last(), p)
    }
}

/// A place, moved on to the end of the tag that it lies in.
pub open spec fn snapped_on(tags: Seq<Tag>, p: int) -> int
    decreases tags.len(),
{
    if tags.len() == 0 {
        p
    } else if tags.last().holds(p) {
        tags.last().end()
    } else {
        snapped_on(tags.drop_last(), p)
    }
}

/// The tags after what stands from one place to another was replaced by some
/// characters: a tag that is touched is gone, those behind move along.
pub open spec fn tags_after(tags: Seq<Tag>, from: int, to: int, put: nat) -> Seq<Tag>
    decreases tags.len(),
{
    if tags.len() == 0 {
        Seq::empty()
    } else {
        let before = tags_after(tags.drop_last(), from, to, put);
        let tag = tags.last();
        if tag.end() <= from {
            before.push(tag)
        } else if to <= tag.start {
            before.push(Tag { start: (tag.start - to + from + put) as usize, ..tag })
        } else {
            before
        }
    }
}

/// Whether a change touches the tag of an image.
pub open spec fn touched(tags: Seq<Tag>, from: int, to: int, id: usize) -> bool {
    exists|k: int|
        0 <= k < tags.len() && (#[trigger] tags[k]).id == id && !tags[k].outside(from, to)
}

/// The images after a change: one whose tag is gone is gone with it.
pub open spec fn images_after(images: Seq<ImageModel>, tags: Seq<Tag>, from: int, to: int) -> Seq<
    ImageModel,
>
    decreases images.len(),
{
    if images.len() == 0 {
        Seq::empty()
    } else {
        let before = images_after(images.drop_last(), tags, from, to);
        if touched(tags, from, to, images.last().id) {
            before
        } else {
            before.push(images.last())
        }
    }
}

/// The tags of images in a text: where the marker of each stands first.
pub open spec fn found_tags(images: Seq<ImageModel>, text: Seq<char>) -> Seq<Tag>
    decreases images.len(),
{
    if images.len() == 0 {
        Seq::empty()
    } else {
        let before = found_tags(images.drop_last(), text);
        let id = images.last().id;
        match index_of(text, image_marker(id)) {
            Some(start) => before.push(Tag { start: start as usize, id }),
            None => before,
        }
    }
}

/// The tags that stand in a text.
pub open spec fn standing(tags: Seq<Tag>, text: Seq<char>) -> Seq<Tag>
    decreases tags.len(),
{
    if tags.len() == 0 {
        Seq::empty()
    } else {
        let before = standing(tags.drop_last(), text);
        if tags.last().stands(text) {
            before.push(tags.last())
        } else {
            before
        }
    }
}

/// The images that go with a text after it was replaced by another: one whose
/// marker was taken out is gone.
pub open spec fn images_kept(
    images: Seq<ImageModel>,
    before: Seq<char>,
    after: Seq<char>,
) -> Seq<ImageModel>
    decreases images.len(),
{
    if images.len() == 0 {
        Seq::empty()
    } else {
        let kept = images_kept(images.drop_last(), before, after);
        let marker = image_marker(images.last().id);
        if occurs(before, marker) && !occurs(after, marker) {
            kept
        } else {
            kept.push(images.last())
        }
    }
}

// ---------------------------------------------------------------------------
// What holds of tags

proof fn marker_is_closed(id: usize)
    ensures
        ({
            let m = image_marker(id);
            &&& m.len() >= 2
            &&& m[0] == '['
            &&& m.last() == ']'
            &&& forall|i: int| 0 < i < m.len() ==> #[trigger] m[i] != '['
            &&& forall|i: int| 0 <= i < m.len() - 1 ==> #[trigger] m[i] != ']'
        }),
{
    reveal_strlit("[Image #");
    reveal_strlit("]");
    crate::text::decimal_reads_back(id as nat);
    let d = decimal(id as nat);
    let m = image_marker(id);
    assert forall|i: int| 8 <= i < m.len() - 1 implies crate::text::digit(#[trigger] m[i]) by {
        assert(m[i] == d[i - 8]);
    }
}

/// Tags that stand in one text do not cross.
proof fn tags_do_not_cross(text: Seq<char>, t: Tag, u: Tag)
    requires
        t.stands(text),
        u.stands(text),
    ensures
        !u.holds(t.start as int),
        !u.holds(t.end()),
{
    marker_is_closed(t.id);
    marker_is_closed(u.id);
    let m = image_marker(u.id);
    if u.holds(t.start as int) {
        assert(text.subrange(t.start as int, t.end())[0] == text[t.start as int]);
        assert(text.subrange(u.start as int, u.end())[t.start - u.start] == text[t.start as int]);
    }
    if u.holds(t.end()) {
        let last = t.end() - 1;
        assert(text.subrange(t.start as int, t.end())[last - t.start] == text[last]);
        assert(last >= u.start);
        assert(text.subrange(u.start as int, u.end())[last - u.start] == text[last]);
    }
}

/// A place that was moved out of its tag lies in none.
pub(crate) proof fn snapping_leaves_tags(tags: Seq<Tag>, text: Seq<char>, p: int)
    requires
        all_stand(tags, text),
        0 <= p <= text.len(),
    ensures
        in_no_tag(tags, snapped_back(tags, p)),
        in_no_tag(tags, snapped_on(tags, p)),
        0 <= snapped_back(tags, p) <= p <= snapped_on(tags, p) <= text.len(),
{
    let t = snapping_finds(tags, p);
    if in_no_tag(tags, p) {
    } else {
        assert forall|k: int| 0 <= k < tags.len() implies !(#[trigger] tags[k]).holds(
            snapped_back(tags, p),
        ) && !tags[k].holds(snapped_on(tags, p)) by {
            tags_do_not_cross(text, tags[t], tags[k]);
        }
    }
}

/// A place that lies in no tag is not moved.
pub(crate) proof fn free_place_stays(tags: Seq<Tag>, p: int)
    requires
        in_no_tag(tags, p),
    ensures
        snapped_back(tags, p) == p,
        snapped_on(tags, p) == p,
{
    let _ = snapping_finds(tags, p);
}

/// No line feed lies in a tag.
pub(crate) proof fn feed_is_outside(tag: Tag, text: Seq<char>, p: int)
    requires
        tag.stands(text),
        0 <= p < text.len(),
        text[p] == '\n',
    ensures
        p < tag.start || tag.end() <= p,
{
    reveal_strlit("[Image #");
    reveal_strlit("]");
    crate::text::decimal_reads_back(tag.id as nat);
    let d = decimal(tag.id as nat);
    let m = image_marker(tag.id);
    if tag.start <= p < tag.end() {
        let i = p - tag.start;
        assert(text.subrange(tag.start as int, tag.end())[i] == text[p]);
        if 8 <= i < m.len() - 1 {
            assert(m[i] == d[i - 8]);
            assert(crate::text::digit(d[i - 8]));
        }
    }
}

proof fn snapping_finds(tags: Seq<Tag>, p: int) -> (t: int)
    ensures
        in_no_tag(tags, p) ==> snapped_back(tags, p) == p && snapped_on(tags, p) == p,
        !in_no_tag(tags, p) ==> 0 <= t < tags.len() && tags[t].holds(p) && snapped_back(tags, p)
            == tags[t].start && snapped_on(tags, p) == tags[t].end(),
    decreases tags.len(),
{
    if tags.len() == 0 {
        0
    } else if tags.last().holds(p) {
        tags.len() - 1
    } else {
        let before = tags.drop_last();
        let t = snapping_finds(before, p);
        assert forall|k: int| 0 <= k < before.len() implies before[k] == tags[k] by {}
        if in_no_tag(before, p) {
            assert forall|k: int| 0 <= k < tags.len() implies !(#[trigger] tags[k]).holds(p) by {
                if k < before.len() {
                    assert(before[k] == tags[k]);
                }
            }
        } else {
            assert(before[t] == tags[t]);
        }
        t
    }
}

/// What a change leaves of the tags stands in the changed text, and the place
/// behind what was put in lies in none of them.
pub(crate) proof fn changed_tags_stand(
    tags: Seq<Tag>,
    text: Seq<char>,
    from: int,
    to: int,
    put: Seq<char>,
)
    requires
        all_stand(tags, text),
        0 <= from <= to <= text.len(),
        text.len() <= usize::MAX,
        from + put.len() + text.len() - to <= usize::MAX,
    ensures
        ({
            let after = tags_after(tags, from, to, put.len());
            &&& all_stand(after, text.take(from) + put + text.skip(to))
            &&& in_no_tag(after, from + put.len())
        }),
    decreases tags.len(),
{
    if tags.len() > 0 {
        let before = tags.drop_last();
        let tag = tags.last();
        assert forall|k: int| 0 <= k < before.len() implies (#[trigger] before[k]).stands(
            text,
        ) by {
            assert(before[k] == tags[k]);
        }
        changed_tags_stand(before, text, from, to, put);
        let now = text.take(from) + put + text.skip(to);
        let m = image_marker(tag.id);
        let rest = tags_after(before, from, to, put.len());
        let after = tags_after(tags, from, to, put.len());
        assert(tag.stands(text));
        if tag.end() <= from {
            assert(now.subrange(tag.start as int, tag.end()) =~= text.subrange(
                tag.start as int,
                tag.end(),
            ));
        } else if to <= tag.start {
            let start = tag.start - to + from + put.len();
            assert(now.subrange(start, start + m.len()) =~= text.subrange(
                tag.start as int,
                tag.end(),
            ));
        }
        assert forall|k: int| 0 <= k < after.len() implies (#[trigger] after[k]).stands(now)
            && !after[k].holds(from + put.len()) by {
            if k < rest.len() {
                assert(after[k] == rest[k]);
            }
        }
    }
}

/// Tags that were left out of those that do not stand all stand.
pub(crate) proof fn standing_tags_stand(tags: Seq<Tag>, text: Seq<char>)
    ensures
        all_stand(standing(tags, text), text),
    decreases tags.len(),
{
    if tags.len() > 0 {
        standing_tags_stand(tags.drop_last(), text);
    }
}

/// Where all tags stand, none is left out.
pub(crate) proof fn all_tags_stand(tags: Seq<Tag>, text: Seq<char>)
    requires
        all_stand(tags, text),
    ensures
        standing(tags, text) == tags,
    decreases tags.len(),
{
    if tags.len() > 0 {
        let before = tags.drop_last();
        assert forall|k: int| 0 <= k < before.len() implies (#[trigger] before[k]).stands(
            text,
        ) by {
            assert(before[k] == tags[k]);
        }
        all_tags_stand(before, text);
        assert(tags[tags.len() - 1].stands(text));
        assert(before.push(tags.last()) =~= tags);
    }
}

/// The places in a tag are moved to its two ends.
pub(crate) proof fn tag_is_snapped(tags: Seq<Tag>, text: Seq<char>, k: int)
    requires
        all_stand(tags, text),
        0 <= k < tags.len(),
    ensures
        snapped_on(tags, tags[k].start + 1) == tags[k].end(),
        snapped_back(tags, tags[k].end() - 1) == tags[k].start,
        0 <= tags[k].start < tags[k].end() <= text.len(),
{
    let tag = tags[k];
    marker_is_closed(tag.id);
    assert(tag.stands(text));
    assert(tag.end() - tag.start > 2) by {
        reveal_strlit("[Image #");
    }
    assert(tag.holds(tag.start + 1) && tag.holds(tag.end() - 1));
    let a = snapping_finds(tags, tag.start + 1);
    let b = snapping_finds(tags, tag.end() - 1);
    tags_do_not_cross(text, tag, tags[a]);
    tags_do_not_cross(text, tags[a], tag);
    tags_do_not_cross(text, tag, tags[b]);
    tags_do_not_cross(text, tags[b], tag);
}

pub(crate) proof fn insertion_keeps_tags(tags: Seq<Tag>, at: int, put: nat)
    requires
        in_no_tag(tags, at),
    ensures
        tags_after(tags, at, at, put).len() == tags.len(),
    decreases tags.len(),
{
    if tags.len() > 0 {
        let before = tags.drop_last();
        assert forall|k: int| 0 <= k < before.len() implies !(#[trigger] before[k]).holds(at) by {
            assert(before[k] == tags[k]);
        }
        insertion_keeps_tags(before, at, put);
        assert(!tags[tags.len() - 1].holds(at));
    }
}

pub(crate) proof fn insertion_keeps_images(images: Seq<ImageModel>, tags: Seq<Tag>, at: int)
    requires
        in_no_tag(tags, at),
    ensures
        images_after(images, tags, at, at) == images,
    decreases images.len(),
{
    if images.len() > 0 {
        insertion_keeps_images(images.drop_last(), tags, at);
        assert(images.drop_last().push(images.last()) =~= images);
    }
}

pub(crate) proof fn touched_images_go(
    images: Seq<ImageModel>,
    tags: Seq<Tag>,
    from: int,
    to: int,
    k: int,
)
    requires
        0 <= k < tags.len(),
        !tags[k].outside(from, to),
    ensures
        forall|i: int|
            0 <= i < images_after(images, tags, from, to).len() ==> (#[trigger] images_after(
                images,
                tags,
                from,
                to,
            )[i]).id != tags[k].id,
    decreases images.len(),
{
    if images.len() > 0 {
        touched_images_go(images.drop_last(), tags, from, to, k);
        let rest = images_after(images.drop_last(), tags, from, to);
        let all = images_after(images, tags, from, to);
        assert forall|i: int| 0 <= i < all.len() implies (#[trigger] all[i]).id != tags[k].id by {
            if i < rest.len() {
                assert(all[i] == rest[i]);
            }
        }
    }
}

// ---------------------------------------------------------------------------
// Tags of the composer

fn tag_text(id: usize) -> (r: String)
    ensures
        r@ == image_marker(id),
{
    cat3("[Image #", count_of(id).as_str(), "]")
}

fn tag_end(tag: Tag, len: usize) -> (r: usize)
    requires
        tag.end() <= len,
    ensures
        r as int == tag.end(),
{
    tag.start + chars_of(tag_text(tag.id).as_str()).len()
}

/// A place, moved back to the start of the tag that it lies in.
pub(crate) fn snap_back(tags: &Vec<Tag>, p: usize, len: usize) -> (r: usize)
    requires
        forall|k: int| 0 <= k < tags@.len() ==> (#[trigger] tags@[k]).end() <= len,
    ensures
        r as int == snapped_back(tags@, p as int),
{
    let mut i: usize = tags.len();
    assert(tags@.take(i as int) =~= tags@);
    while i > 0
        invariant
            i <= tags@.len(),
            forall|k: int| 0 <= k < tags@.len() ==> (#[trigger] tags@[k]).end() <= len,
            snapped_back(tags@.take(i as int), p as int) == snapped_back(tags@, p as int),
        decreases i,
    {
        i -= 1;
        let tag = tags[i];
        assert(tags@.take(i + 1).drop_last() =~= tags@.take(i as int));
        assert(tags@.take(i + 1).last() == tag);
        if tag.start < p && p < tag_end(tag, len) {
            return tag.start;
        }
    }
    p
}

/// A place, moved on to the end of the tag that it lies in.
pub(crate) fn snap_on(tags: &Vec<Tag>, p: usize, len: usize) -> (r: usize)
    requires
        forall|k: int| 0 <= k < tags@.len() ==> (#[trigger] tags@[k]).end() <= len,
    ensures
        r as int == snapped_on(tags@, p as int),
{
    let mut i: usize = tags.len();
    assert(tags@.take(i as int) =~= tags@);
    while i > 0
        invariant
            i <= tags@.len(),
            forall|k: int| 0 <= k < tags@.len() ==> (#[trigger] tags@[k]).end() <= len,
            snapped_on(tags@.take(i as int), p as int) == snapped_on(tags@, p as int),
        decreases i,
    {
        i -= 1;
        let tag = tags[i];
        assert(tags@.take(i + 1).drop_last() =~= tags@.take(i as int));
        assert(tags@.take(i + 1).last() == tag);
        let end: usize = tag_end(tag, len);
        if tag.start < p && p < end {
            return end;
        }
    }
    p
}

/// The tags after a change; see `tags_after`. `behind` is the place behind
/// what was put in.
pub(crate) fn move_tags(tags: &Vec<Tag>, from: usize, to: usize, behind: usize, len: usize) -> (r:
    Vec<Tag>)
    requires
        from <= to <= len,
        from <= behind,
        behind + len - to <= usize::MAX,
        forall|k: int| 0 <= k < tags@.len() ==> (#[trigger] tags@[k]).end() <= len,
    ensures
        r@ == tags_after(tags@, from as int, to as int, (behind - from) as nat),
{
    let ghost put = (behind - from) as nat;
    let mut r: Vec<Tag> = Vec::new();
    let mut i: usize = 0;
    assert(tags@.take(0) =~= Seq::empty());
    while i < tags.len()
        invariant
            i <= tags@.len(),
            from <= to <= len,
            from <= behind,
            behind + len - to <= usize::MAX,
            put == (behind - from) as nat,
            forall|k: int| 0 <= k < tags@.len() ==> (#[trigger] tags@[k]).end() <= len,
            r@ == tags_after(tags@.take(i as int), from as int, to as int, put),
        decreases tags@.len() - i,
    {
        let tag = tags[i];
        assert(tags@.take(i + 1).drop_last() =~= tags@.take(i as int));
        assert(tags@.take(i + 1).last() == tag);
        if tag_end(tag, len) <= from {
            r.push(tag);
        } else if to <= tag.start {
            r.push(Tag { start: tag.start - to + behind, id: tag.id });
        }
        i += 1;
    }
    assert(tags@.take(i as int) =~= tags@);
    r
}

fn is_touched(tags: &Vec<Tag>, from: usize, to: usize, id: usize, len: usize) -> (r: bool)
    requires
        forall|k: int| 0 <= k < tags@.len() ==> (#[trigger] tags@[k]).end() <= len,
    ensures
        r == touched(tags@, from as int, to as int, id),
{
    let mut i: usize = 0;
    while i < tags.len()
        invariant
            i <= tags@.len(),
            forall|k: int| 0 <= k < tags@.len() ==> (#[trigger] tags@[k]).end() <= len,
            forall|k: int|
                0 <= k < i ==> !((#[trigger] tags@[k]).id == id && !tags@[k].outside(
                    from as int,
                    to as int,
                )),
        decreases tags@.len() - i,
    {
        let tag = tags[i];
        if tag.id == id && !(tag_end(tag, len) <= from || to <= tag.start) {
            assert(tags@[i as int].id == id);
            return true;
        }
        i += 1;
    }
    false
}

/// The images after a change; see `images_after`.
pub(crate) fn keep_images(
    images: &Vec<StagedImage>,
    tags: &Vec<Tag>,
    from: usize,
    to: usize,
    len: usize,
) -> (r: Vec<StagedImage>)
    requires
        forall|k: int| 0 <= k < tags@.len() ==> (#[trigger] tags@[k]).end() <= len,
    ensures
        views(r@) == images_after(views(images@), tags@, from as int, to as int),
{
    let ghost all = views(images@);
    let mut r: Vec<StagedImage> = Vec::new();
    let mut i: usize = 0;
    assert(all.take(0) =~= Seq::empty());
    assert(views(r@) =~= Seq::empty());
    while i < images.len()
        invariant
            i <= images@.len(),
            all == views(images@),
            forall|k: int| 0 <= k < tags@.len() ==> (#[trigger] tags@[k]).end() <= len,
            views(r@) == images_after(all.take(i as int), tags@, from as int, to as int),
        decreases images@.len() - i,
    {
        assert(all.take(i + 1).drop_last() =~= all.take(i as int));
        assert(all.take(i + 1).last() == images@[i as int]@);
        let ghost before = views(r@);
        if !is_touched(tags, from, to, images[i].id, len) {
            r.push(images[i].copy());
            assert(views(r@) =~= before.push(images@[i as int]@));
        }
        i += 1;
    }
    assert(all.take(i as int) =~= all);
    r
}

/// The tags of images in a text; see `found_tags`.
pub(crate) fn find_tags(images: &Vec<StagedImage>, text: &Vec<char>) -> (r: Vec<Tag>)
    ensures
        r@ == found_tags(views(images@), text@),
{
    let ghost all = views(images@);
    let mut r: Vec<Tag> = Vec::new();
    let mut i: usize = 0;
    assert(all.take(0) =~= Seq::empty());
    while i < images.len()
        invariant
            i <= images@.len(),
            all == views(images@),
            r@ == found_tags(all.take(i as int), text@),
        decreases images@.len() - i,
    {
        assert(all.take(i + 1).drop_last() =~= all.take(i as int));
        assert(all.take(i + 1).last() == images@[i as int]@);
        let id: usize = images[i].id;
        match find(text, &chars_of(tag_text(id).as_str())) {
            Some(start) => r.push(Tag { start, id }),
            None => {},
        }
        i += 1;
    }
    assert(all.take(i as int) =~= all);
    r
}

fn stands_in(tag: Tag, text: &Vec<char>) -> (r: bool)
    ensures
        r == tag.stands(text@),
{
    let marker = chars_of(tag_text(tag.id).as_str());
    let n: usize = text.len();
    let len: usize = marker.len();
    if tag.start > n || len > n - tag.start {
        return false;
    }
    let mut i: usize = 0;
    while i < len
        invariant
            i <= len,
            len == marker@.len(),
            n == text@.len(),
            marker@ == image_marker(tag.id),
            tag.start + len <= n,
            forall|k: int| 0 <= k < i ==> text@[tag.start + k] == #[trigger] marker@[k],
        decreases len - i,
    {
        if text[tag.start + i] != marker[i] {
            assert(text@.subrange(tag.start as int, tag.start + len)[i as int] == text@[tag.start
                + i]);
            return false;
        }
        i += 1;
    }
    assert(text@.subrange(tag.start as int, tag.start + len) =~= marker@);
    true
}

/// The tags that stand in a text; see `standing`.
pub(crate) fn keep_standing(tags: &Vec<Tag>, text: &Vec<char>) -> (r: Vec<Tag>)
    ensures
        r@ == standing(tags@, text@),
{
    let mut r: Vec<Tag> = Vec::new();
    let mut i: usize = 0;
    assert(tags@.take(0) =~= Seq::empty());
    while i < tags.len()
        invariant
            i <= tags@.len(),
            r@ == standing(tags@.take(i as int), text@),
        decreases tags@.len() - i,
    {
        assert(tags@.take(i + 1).drop_last() =~= tags@.take(i as int));
        assert(tags@.take(i + 1).last() == tags@[i as int]);
        if stands_in(tags[i], text) {
            r.push(tags[i]);
        }
        i += 1;
    }
    assert(tags@.take(i as int) =~= tags@);
    r
}

pub(crate) fn copy_tags(tags: &Vec<Tag>) -> (r: Vec<Tag>)
    ensures
        r@ == tags@,
{
    let mut r: Vec<Tag> = Vec::new();
    let mut i: usize = 0;
    while i < tags.len()
        invariant
            i <= tags@.len(),
            r@ == tags@.take(i as int),
        decreases tags@.len() - i,
    {
        r.push(tags[i]);
        i += 1;
        assert(r@ =~= tags@.take(i as int));
    }
    assert(tags@.take(i as int) =~= tags@);
    r
}

pub(crate) fn same_tags(a: &Vec<Tag>, b: &Vec<Tag>) -> (r: bool)
    ensures
        r == (a@ == b@),
{
    if a.len() != b.len() {
        return false;
    }
    let mut i: usize = 0;
    while i < a.len()
        invariant
            i <= a@.len(),
            a@.len() == b@.len(),
            forall|k: int| 0 <= k < i ==> a@[k] == b@[k],
        decreases a@.len() - i,
    {
        if a[i] != b[i] {
            return false;
        }
        i += 1;
    }
    assert(a@ =~= b@);
    true
}

/// The images that go with a text after a change; see `images_kept`.
pub(crate) fn images_with(images: &Vec<StagedImage>, before: &Vec<char>, after: &Vec<char>) -> (r:
    Vec<StagedImage>)
    ensures
        views(r@) == images_kept(views(images@), before@, after@),
{
    let ghost all = views(images@);
    let mut r: Vec<StagedImage> = Vec::new();
    let mut i: usize = 0;
    assert(all.take(0) =~= Seq::empty());
    assert(views(r@) =~= Seq::empty());
    while i < images.len()
        invariant
            i <= images@.len(),
            all == views(images@),
            views(r@) == images_kept(all.take(i as int), before@, after@),
        decreases images@.len() - i,
    {
        assert(all.take(i + 1).drop_last() =~= all.take(i as int));
        assert(all.take(i + 1).last() == images@[i as int]@);
        let ghost kept = views(r@);
        let marker = chars_of(tag_text(images[i].id).as_str());
        if find(before, &marker).is_none() || find(after, &marker).is_some() {
            r.push(images[i].copy());
            assert(views(r@) =~= kept.push(images@[i as int]@));
        }
        i += 1;
    }
    assert(all.take(i as int) =~= all);
    r
}

/// An image stays with a message whose text still shows it, and with one that
/// never did; one whose mark was taken out of the text is gone.
pub proof fn images_stay_with_their_mark(
    images: Seq<ImageModel>,
    image: ImageModel,
    before: Seq<char>,
    after: Seq<char>,
)
    ensures
        ({
            let marker = "[Image #"@ + crate::text::decimal(image.id as nat) + "]"@;
            let kept = images_kept(images, before, after);
            let now = images_kept(images.push(image), before, after);
            &&& occurs(after, marker) || !occurs(before, marker) ==> now == kept.push(image)
            &&& occurs(before, marker) && !occurs(after, marker) ==> now == kept
            &&& images_kept(Seq::empty(), before, after).len() == 0
        }),
{
    assert(images.push(image).drop_last() =~= images);
}

/// An image is tagged where its mark stands first in the text, and nowhere
/// where it does not.
pub proof fn marks_are_found(images: Seq<ImageModel>, image: ImageModel, text: Seq<char>)
    requires
        text.len() <= usize::MAX,
    ensures
        ({
            let marker = "[Image #"@ + crate::text::decimal(image.id as nat) + "]"@;
            let before = found_tags(images, text);
            let now = found_tags(images.push(image), text);
            &&& !occurs(text, marker) ==> now == before
            &&& occurs(text, marker) ==> now.len() == before.len() + 1 && now.drop_last() == before
                && now.last().id == image.id && crate::text::occurs_at(
                text,
                marker,
                now.last().start as int,
            )
        }),
{
    assert(images.push(image).drop_last() =~= images);
    let marker = image_marker(image.id);
    crate::text::index_from_finds(text, marker, 0);
    if occurs(text, marker) {
        let now = found_tags(images.push(image), text);
        assert(now.drop_last() =~= found_tags(images, text));
    }
}

/// A change of the text moves the tags behind it by what it adds, leaves those
/// before it, and takes those away that it touches, with their images.
pub proof fn changes_move_the_tags_behind(
    tags: Seq<Tag>,
    tag: Tag,
    from: int,
    to: int,
    put: nat,
)
    requires
        0 <= from <= to,
        tag.start + put <= usize::MAX,
    ensures
        ({
            let before = tags_after(tags, from, to, put);
            let now = tags_after(tags.push(tag), from, to, put);
            &&& tag.end() <= from ==> now == before.push(tag)
            &&& tag.end() > from && tag.start >= to ==> now.len() == before.len() + 1
                && now.drop_last() == before && now.last().id == tag.id && now.last().start
                == tag.start - (to - from) + put
            &&& tag.end() > from && tag.start < to ==> now == before
        }),
{
    assert(tags.push(tag).drop_last() =~= tags);
    let before = tags_after(tags, from, to, put);
    let now = tags_after(tags.push(tag), from, to, put);
    if tag.end() > from && tag.start >= to {
        assert(now.drop_last() =~= before);
    }
}

} // verus!

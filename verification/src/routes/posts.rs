//! Decisions of the post handlers.

use vstd::prelude::*;

use crate::params::SearchParams;

verus! {

/// What posts can be sorted by.
#[derive(Debug, Clone, Copy, PartialEq, Eq, Structural)]
pub enum PostSort {
    Date,
    Title,
}

/// The parameters of a post listing.
#[derive(Debug, Clone)]
pub struct PostParams {
    pub base: SearchParams<PostSort>,
    pub tag: Option<String>,
}

/// The SQL expression that a post listing is ordered by: the title without
/// a leading article where titles were asked for, else the creation time.
pub fn post_order_column(sort: Option<&PostSort>) -> (r: &'static str)
    ensures
        r@ == match sort {
            Some(PostSort::Title) => "REGEXP_REPLACE(title, '^(The|A|An)\\s+', '', 'i')"@,
            _ => "created_at"@,
        },
{
    match sort {
        Some(PostSort::Title) => "REGEXP_REPLACE(title, '^(The|A|An)\\s+', '', 'i')",
        _ => "created_at",
    }
}

/// The texts of a list of tags.
pub open spec fn texts(tags: Seq<String>) -> Seq<Seq<char>> {
    tags.map_values(|t: String| t@)
}

/// The tags of `from` that `without` lacks, each once, in the order in
/// which `from` first names them.
pub open spec fn difference(from: Seq<Seq<char>>, without: Seq<Seq<char>>) -> Seq<Seq<char>>
    decreases from.len(),
{
    if from.len() == 0 {
        Seq::empty()
    } else {
        let rest = difference(from.drop_last(), without);
        if without.contains(from.last()) || rest.contains(from.last()) {
            rest
        } else {
            rest.push(from.last())
        }
    }
}

/// The difference holds exactly the tags of `from` that `without` lacks,
/// and none of them twice.
pub proof fn lemma_difference(from: Seq<Seq<char>>, without: Seq<Seq<char>>)
    ensures
        difference(from, without).no_duplicates(),
        forall|t: Seq<char>|
            difference(from, without).contains(t) <==> from.contains(t) && !without.contains(t),
    decreases from.len(),
{
    let out = difference(from, without);
    if from.len() > 0 {
        let init = from.drop_last();
        let last = from.last();
        let rest = difference(init, without);
        lemma_difference(init, without);
        assert forall|t: Seq<char>| out.contains(t) <==> from.contains(t) && !without.contains(
            t,
        ) by {
            if from.contains(t) {
                let i = choose|i: int| 0 <= i < from.len() && from[i] == t;
                if i < init.len() {
                    assert(init[i] == t);
                }
            }
            if init.contains(t) {
                let i = choose|i: int| 0 <= i < init.len() && init[i] == t;
                assert(from[i] == t);
            }
            assert(from[from.len() - 1] == last);
            if rest.contains(t) {
                let i = choose|i: int| 0 <= i < rest.len() && rest[i] == t;
                if out.len() > rest.len() {
                    assert(out[i] == t);
                }
            }
            if out.contains(t) && out.len() > rest.len() {
                let i = choose|i: int| 0 <= i < out.len() && out[i] == t;
                if i < rest.len() {
                    assert(rest[i] == t);
                }
            }
            if out.len() > rest.len() {
                assert(out[rest.len() as int] == last);
            }
        }
    }
}

/// What a change of a post's tags asks of the tag statistics.
#[derive(Debug, Clone, PartialEq, Eq)]
pub struct TagChanges {
    /// Tags the post no longer carries.
    pub to_remove: Vec<String>,
    /// Tags the post did not carry before.
    pub to_add: Vec<String>,
}

fn holds(tags: &Vec<String>, tag: &String) -> (r: bool)
    ensures
        r == texts(tags@).contains(tag@),
{
    let mut i: usize = 0;
    while i < tags.len()
        invariant
            i <= tags.len(),
            forall|j: int| 0 <= j < i ==> (#[trigger] texts(tags@)[j]) != tag@,
        decreases tags.len() - i,
    {
        if tags[i] == *tag {
            assert(texts(tags@)[i as int] == tag@);
            return true;
        }
        i = i + 1;
    }
    false
}

fn subtract(from: &Vec<String>, without: &Vec<String>) -> (r: Vec<String>)
    ensures
        texts(r@) == difference(texts(from@), texts(without@)),
{
    let ghost all = texts(from@);
    let mut out: Vec<String> = Vec::new();
    let mut i: usize = 0;
    proof {
        assert(texts(out@) =~= difference(all.take(0), texts(without@)));
    }
    while i < from.len()
        invariant
            i <= from.len(),
            all == texts(from@),
            texts(out@) == difference(all.take(i as int), texts(without@)),
        decreases from.len() - i,
    {
        proof {
            assert(all.take(i + 1).drop_last() =~= all.take(i as int));
            assert(all.take(i + 1).last() == from[i as int]@);
        }
        if !holds(without, &from[i]) && !holds(&out, &from[i]) {
            let ghost before = texts(out@);
            out.push(from[i].clone());
            proof {
                assert(texts(out@) =~= before.push(from[i as int]@));
            }
        }
        i = i + 1;
    }
    proof {
        assert(all.take(i as int) =~= all);
    }
    out
}

/// Compares the tags a post carried with the tags it is to carry. Each
/// list of the result names a tag once, however often the post named it.
pub fn tag_changes(old_tags: &Vec<String>, new_tags: &Vec<String>) -> (r: TagChanges)
    ensures
        texts(r.to_remove@) == difference(texts(old_tags@), texts(new_tags@)),
        texts(r.to_add@) == difference(texts(new_tags@), texts(old_tags@)),
        texts(r.to_remove@).no_duplicates(),
        texts(r.to_add@).no_duplicates(),
{
    proof {
        lemma_difference(texts(old_tags@), texts(new_tags@));
        lemma_difference(texts(new_tags@), texts(old_tags@));
    }
    TagChanges { to_remove: subtract(old_tags, new_tags), to_add: subtract(new_tags, old_tags) }
}

/// The body of a request that creates a post.
#[derive(Debug, Clone, PartialEq, Eq)]
pub struct CreatePostRequest {
    pub title: String,
    pub slug: Option<String>,
    pub content: String,
    pub tags: Vec<String>,
    pub visibility_mask: i32,
    pub signature: Option<String>,
    pub is_mature: bool,
    pub summary: Option<String>,
}

/// The body of a request that replaces a post.
#[derive(Debug, Clone)]
pub struct UpdatePostRequest {
    pub title: String,
    pub slug: Option<String>,
    pub content: String,
    pub tags: Vec<String>,
    pub visibility_mask: i32,
    pub signature: Option<String>,
    pub is_mature: bool,
    pub summary: Option<String>,
}

impl UpdatePostRequest {
    /// What the update asks of the tag statistics, given the tags the post
    /// carried so far.
    pub fn tag_changes(&self, old_tags: &Vec<String>) -> (r: TagChanges)
        ensures
            texts(r.to_remove@) == difference(texts(old_tags@), texts(self.tags@)),
            texts(r.to_add@) == difference(texts(self.tags@), texts(old_tags@)),
            texts(r.to_remove@).no_duplicates(),
            texts(r.to_add@).no_duplicates(),
    {
        tag_changes(old_tags, &self.tags)
    }
}

} // verus!

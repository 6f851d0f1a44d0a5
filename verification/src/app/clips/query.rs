//! Finding clips: matching local clips against an identifier, collecting their tags and names,
//! and merging the results of hosted queries.
use vstd::prelude::*;
use crate::error::{not_found, WayclipError};
use crate::models::clips::hosted::HostedClip;
use crate::models::clips::local::LocalClip;
use crate::models::query::{FullQueryWeb, PageQuery, StringQueryWeb};
use crate::pattern::{regex_is_match, regex_match, regex_rejects};
use crate::text::str_eq;

verus! {

/// The queries over clips.
pub struct ClipsQuery;

/// Whether a local clip (with the file name of its video) matches `identifier`: by regular
/// expression on the name or the file name, or else by equality with either.
pub open spec fn local_matches(clip: LocalClip, file_name: Seq<char>, identifier: Seq<char>, regex: bool) -> bool {
    if regex {
        regex_is_match(identifier, clip.name@) || regex_is_match(identifier, file_name)
    } else {
        clip.name@ == identifier || file_name == identifier
    }
}

/// The clips of `scanned` that match, in order.
pub open spec fn matching(
    scanned: Seq<(LocalClip, String)>,
    identifier: Seq<char>,
    regex: bool,
) -> Seq<LocalClip>
    decreases scanned.len(),
{
    if scanned.len() == 0 {
        Seq::empty()
    } else {
        let init = matching(scanned.drop_last(), identifier, regex);
        let (c, f) = scanned.last();
        if local_matches(c, f@, identifier, regex) {
            init.push(c)
        } else {
            init
        }
    }
}

/// Whether a local clip is the one `identifier` names: by name, file name or uploaded id.
pub open spec fn names_clip(clip: LocalClip, file_name: Seq<char>, identifier: Seq<char>) -> bool {
    ||| clip.name@ == identifier
    ||| file_name == identifier
    ||| (clip.uploaded_id matches Some(id) && id@ == identifier)
}

/// The position of the first scanned clip that `identifier` names.
pub open spec fn first_named(scanned: Seq<(LocalClip, String)>, identifier: Seq<char>) -> Option<int>
    decreases scanned.len(),
{
    if scanned.len() == 0 {
        None
    } else if names_clip(scanned[0].0, scanned[0].1@, identifier) {
        Some(0)
    } else {
        match first_named(scanned.drop_first(), identifier) {
            Some(k) => Some(k + 1),
            None => None,
        }
    }
}

proof fn lemma_first_named_skip(scanned: Seq<(LocalClip, String)>, identifier: Seq<char>, i: int)
    requires
        0 <= i <= scanned.len(),
        forall|t: int| 0 <= t < i ==> !names_clip(#[trigger] scanned[t].0, scanned[t].1@, identifier),
    ensures
        first_named(scanned, identifier) == match first_named(scanned.skip(i), identifier) {
            Some(k) => Some(k + i),
            None => None::<int>,
        },
    decreases i,
{
    if i == 0 {
        assert(scanned.skip(0) =~= scanned);
    } else {
        let t = scanned.drop_first();
        assert forall|q: int| 0 <= q < i - 1 implies !names_clip(#[trigger] t[q].0, t[q].1@, identifier) by {
            assert(t[q] == scanned[q + 1]);
        }
        lemma_first_named_skip(t, identifier, i - 1);
        assert(t.skip(i - 1) =~= scanned.skip(i));
        assert(!names_clip(scanned[0].0, scanned[0].1@, identifier));
    }
}

/// The items of `s`, each at its first occurrence.
pub open spec fn unique(s: Seq<Seq<char>>) -> Seq<Seq<char>>
    decreases s.len(),
{
    if s.len() == 0 {
        Seq::empty()
    } else {
        let init = unique(s.drop_last());
        if init.contains(s.last()) {
            init
        } else {
            init.push(s.last())
        }
    }
}

/// The tag names of the clips, clip by clip and tag by tag.
pub open spec fn all_tag_names(clips: Seq<LocalClip>) -> Seq<Seq<char>>
    decreases clips.len(),
{
    if clips.len() == 0 {
        Seq::empty()
    } else {
        all_tag_names(clips.drop_last()) + clips.last().clip_tags@.map_values(|t: crate::models::clips::tags::ClipsTag| t.name@)
    }
}

/// `results`, then each clip of `more` whose id is not among those before it.
pub open spec fn merge_by_id(results: Seq<HostedClip>, more: Seq<HostedClip>) -> Seq<HostedClip>
    decreases more.len(),
{
    if more.len() == 0 {
        results
    } else {
        let init = merge_by_id(results, more.drop_last());
        if exists|k: int| 0 <= k < init.len() && (#[trigger] init[k]).clip_id@ == more.last().clip_id@ {
            init
        } else {
            init.push(more.last())
        }
    }
}

/// Adds `x` to `out` unless it is there; `out` keeps each item once.
fn push_unique(out: &mut Vec<String>, x: &String)
    ensures
        ({
            let before = old(out)@.map_values(|s: String| s@);
            let after = final(out)@.map_values(|s: String| s@);
            after == if before.contains(x@) {
                before
            } else {
                before.push(x@)
            }
        }),
{
    let ghost before = out@.map_values(|s: String| s@);
    let mut j: usize = 0;
    while j < out.len()
        invariant
            out@ == old(out)@,
            before == out@.map_values(|s: String| s@),
            j <= out@.len(),
            forall|t: int| 0 <= t < j ==> (#[trigger] out@[t])@ != x@,
        decreases out@.len() - j,
    {
        if str_eq(out[j].as_str(), x.as_str()) {
            assert(before[j as int] == x@);
            return;
        }
        j = j + 1;
    }
    assert(!before.contains(x@)) by {
        if before.contains(x@) {
            let t = choose|t: int| 0 <= t < before.len() && before[t] == x@;
            assert(out@[t]@ == x@);
        }
    }
    out.push(x.clone());
    assert(out@.map_values(|s: String| s@) =~= before.push(x@));
}

/// Whether the text query `q` selects rows equal to `identifier`, or matching it as a
/// regular expression with `regex`, with no other condition.
pub open spec fn string_query_for(q: StringQueryWeb, identifier: Seq<char>, regex: bool) -> bool {
    &&& q.like is None && q.start is None && q.end is None
    &&& regex ==> (q.equal is None && (q.regex matches Some(r) && r@ == identifier))
    &&& !regex ==> (q.regex is None && (q.equal matches Some(e) && e@ == identifier))
}

impl ClipsQuery {
    /// The two searches for the hosted clip `identifier`: by clip id, then by clip name; each
    /// the first page of a hundred clips whose column is `identifier` (or matches it as a
    /// regular expression with `regex`).
    pub fn hosted_queries(identifier: &str, regex: bool) -> (r: (FullQueryWeb, FullQueryWeb))
        ensures
            r.0.page_query == (PageQuery { page_size: 100, page_num: 0 }),
            r.1.page_query == (PageQuery { page_size: 100, page_num: 0 }),
            r.0.vec_query is None && r.0.order_query is None && r.0.range_query is None,
            r.1.vec_query is None && r.1.order_query is None && r.1.range_query is None,
            r.0.string_query matches Some(q) && q.column@ == "clip_id"@ && string_query_for(q, identifier@, regex),
            r.1.string_query matches Some(q) && q.column@ == "clip_name"@ && string_query_for(q, identifier@, regex),
    {
        let mut by_id = FullQueryWeb::page(100, 0);
        by_id.string_query = Some(StringQueryWeb::for_identifier("clip_id".to_owned(), identifier, regex));
        let mut by_name = FullQueryWeb::page(100, 0);
        by_name.string_query = Some(StringQueryWeb::for_identifier("clip_name".to_owned(), identifier, regex));
        (by_id, by_name)
    }

    /// The scanned local clips (each with the file name of its video) that match `identifier`,
    /// in order. With `regex`, the identifier is compiled first, and a pattern that the regex
    /// engine refuses is an error, whatever the clips.
    pub fn query_local_clips(
        scanned: Vec<(LocalClip, String)>,
        identifier: &str,
        regex: bool,
    ) -> (r: Result<Vec<LocalClip>, WayclipError>)
        ensures
            regex && regex_rejects(identifier@) ==> r matches Err(WayclipError::Regex(_)),
            !(regex && regex_rejects(identifier@)) ==> (r matches Ok(v) && v@ == matching(
                scanned@,
                identifier@,
                regex,
            )),
    {
        if regex {
            match regex_match(identifier, "") {
                Ok(_) => {},
                Err(m) => return Err(WayclipError::Regex(m)),
            }
        }
        let ghost sc = scanned@;
        let mut pending = scanned;
        let n = pending.len();
        let mut out: Vec<LocalClip> = Vec::new();
        let mut i: usize = 0;
        assert(sc.skip(0) =~= sc);
        assert(sc.subrange(0, 0) =~= Seq::<(LocalClip, String)>::empty());
        while i < n
            invariant
                n == sc.len(),
                i <= n,
                pending@ == sc.skip(i as int),
                regex ==> !regex_rejects(identifier@),
                out@ == matching(sc.subrange(0, i as int), identifier@, regex),
            decreases n - i,
        {
            let (clip, file_name) = pending.remove(0);
            assert(sc.skip(i as int)[0] == sc[i as int]);
            assert(sc.skip(i as int).remove(0) =~= sc.skip(i + 1));
            assert(sc.subrange(0, i + 1).drop_last() =~= sc.subrange(0, i as int));
            let keep = if regex {
                let a = match regex_match(identifier, clip.name.as_str()) {
                    Ok(b) => b,
                    Err(_) => false,
                };
                let b = match regex_match(identifier, file_name.as_str()) {
                    Ok(b) => b,
                    Err(_) => false,
                };
                a || b
            } else {
                str_eq(clip.name.as_str(), identifier) || str_eq(file_name.as_str(), identifier)
            };
            if keep {
                out.push(clip);
            }
            i = i + 1;
        }
        assert(sc.subrange(0, n as int) =~= sc);
        Ok(out)
    }

    /// The first scanned local clip that `identifier` names (by name, file name or uploaded
    /// id); `NotFound` when none does.
    pub fn get_local_clip(scanned: Vec<(LocalClip, String)>, identifier: &str) -> (r: Result<
        LocalClip,
        WayclipError,
    >)
        ensures
            match first_named(scanned@, identifier@) {
                Some(k) => r == Ok::<LocalClip, WayclipError>(scanned@[k].0),
                None => r matches Err(WayclipError::NotFound(_)),
            },
    {
        let ghost sc = scanned@;
        let mut pending = scanned;
        let n = pending.len();
        let mut i: usize = 0;
        assert(sc.skip(0) =~= sc);
        while i < n
            invariant
                n == sc.len(),
                i <= n,
                pending@ == sc.skip(i as int),
                sc == scanned@,
                forall|t: int| 0 <= t < i ==> !names_clip(#[trigger] sc[t].0, sc[t].1@, identifier@),
            decreases n - i,
        {
            let pair = pending.remove(0);
            assert(sc.skip(i as int)[0] == sc[i as int]);
            assert(sc.skip(i as int).remove(0) =~= sc.skip(i + 1));
            assert(pair == sc[i as int]);
            let (clip, file_name) = pair;
            let by_id = match &clip.uploaded_id {
                Some(id) => str_eq(id.as_str(), identifier),
                None => false,
            };
            if str_eq(clip.name.as_str(), identifier) || str_eq(file_name.as_str(), identifier)
                || by_id {
                proof {
                    lemma_first_named_skip(sc, identifier@, i as int);
                    assert(sc.skip(i as int)[0] == sc[i as int]);
                }
                return Ok(clip);
            }
            i = i + 1;
        }
        proof {
            lemma_first_named_skip(sc, identifier@, i as int);
            assert(sc.skip(i as int) =~= Seq::<(LocalClip, String)>::empty());
        }
        Err(not_found("No clip was found"))
    }

    /// The tag names of the clips, each once, in order of first occurrence.
    pub fn get_all_tags(clips: &Vec<LocalClip>) -> (v: Vec<String>)
        ensures
            v@.map_values(|s: String| s@) == unique(all_tag_names(clips@)),
    {
        let mut out: Vec<String> = Vec::new();
        let ghost mut seen: Seq<Seq<char>> = Seq::empty();
        let mut i: usize = 0;
        assert(clips@.subrange(0, 0) =~= Seq::<LocalClip>::empty());
        while i < clips.len()
            invariant
                i <= clips@.len(),
                seen == all_tag_names(clips@.subrange(0, i as int)),
                out@.map_values(|s: String| s@) == unique(seen),
            decreases clips@.len() - i,
        {
            let tags = &clips[i].clip_tags;
            let ghost names = tags@.map_values(|t: crate::models::clips::tags::ClipsTag| t.name@);
            assert(clips@.subrange(0, i + 1).drop_last() =~= clips@.subrange(0, i as int));
            let mut j: usize = 0;
            let ghost base = seen;
            assert(names.subrange(0, 0) =~= Seq::<Seq<char>>::empty());
            assert(base + names.subrange(0, 0) =~= base);
            while j < tags.len()
                invariant
                    j <= tags@.len(),
                    names == tags@.map_values(|t: crate::models::clips::tags::ClipsTag| t.name@),
                    seen == base + names.subrange(0, j as int),
                    out@.map_values(|s: String| s@) == unique(seen),
                decreases tags@.len() - j,
            {
                push_unique(&mut out, &tags[j].name);
                proof {
                    let next = base + names.subrange(0, j + 1);
                    assert(next.drop_last() =~= seen);
                    assert(next.last() == tags@[j as int].name@);
                    seen = next;
                }
                j = j + 1;
            }
            assert(names.subrange(0, tags@.len() as int) =~= names);
            i = i + 1;
        }
        assert(clips@.subrange(0, clips@.len() as int) =~= clips@);
        out
    }

    /// The names of the clips, each once, in order of first occurrence.
    pub fn get_all_names(clips: &Vec<LocalClip>) -> (v: Vec<String>)
        ensures
            v@.map_values(|s: String| s@) == unique(clips@.map_values(|c: LocalClip| c.name@)),
    {
        let ghost names = clips@.map_values(|c: LocalClip| c.name@);
        let mut out: Vec<String> = Vec::new();
        let mut i: usize = 0;
        assert(names.subrange(0, 0) =~= Seq::<Seq<char>>::empty());
        while i < clips.len()
            invariant
                i <= clips@.len(),
                names == clips@.map_values(|c: LocalClip| c.name@),
                out@.map_values(|s: String| s@) == unique(names.subrange(0, i as int)),
            decreases clips@.len() - i,
        {
            assert(names.subrange(0, i + 1).drop_last() =~= names.subrange(0, i as int));
            push_unique(&mut out, &clips[i].name);
            i = i + 1;
        }
        assert(names.subrange(0, clips@.len() as int) =~= names);
        out
    }

    /// The clips found by id, then those found by name whose id is not among the clips before
    /// them.
    pub fn merge_hosted_results(results: Vec<HostedClip>, name_results: Vec<HostedClip>) -> (v: Vec<
        HostedClip,
    >)
        ensures
            v@ == merge_by_id(results@, name_results@),
    {
        let ghost more = name_results@;
        let mut out = results;
        let ghost start = out@;
        let mut pending = name_results;
        let n = pending.len();
        let mut i: usize = 0;
        assert(more.skip(0) =~= more);
        assert(more.subrange(0, 0) =~= Seq::<HostedClip>::empty());
        while i < n
            invariant
                n == more.len(),
                i <= n,
                pending@ == more.skip(i as int),
                out@ == merge_by_id(start, more.subrange(0, i as int)),
            decreases n - i,
        {
            let clip = pending.remove(0);
            assert(more.skip(i as int)[0] == more[i as int]);
            assert(more.skip(i as int).remove(0) =~= more.skip(i + 1));
            assert(more.subrange(0, i + 1).drop_last() =~= more.subrange(0, i as int));
            let mut found = false;
            let mut k: usize = 0;
            while k < out.len()
                invariant
                    k <= out@.len(),
                    found == exists|t: int| 0 <= t < k && (#[trigger] out@[t]).clip_id@ == clip.clip_id@,
                decreases out@.len() - k,
            {
                if str_eq(out[k].clip_id.as_str(), clip.clip_id.as_str()) {
                    found = true;
                }
                k = k + 1;
            }
            if !found {
                out.push(clip);
            }
            i = i + 1;
        }
        assert(more.subrange(0, n as int) =~= more);
        out
    }

    /// The page to fetch after `page_num` when listing hosted clips, if any: the listing stops
    /// once every page was fetched or a page came back empty.
    pub fn next_page(page_num: u64, num_pages: u64, fetched_count: usize) -> (r: Option<u64>)
        requires
            page_num < u64::MAX,
        ensures
            r == if page_num + 1 >= num_pages || fetched_count == 0 {
                None
            } else {
                Some((page_num + 1) as u64)
            },
    {
        let next = page_num + 1;
        if next >= num_pages || fetched_count == 0 {
            None
        } else {
            Some(next)
        }
    }
}

} // verus!

verus! {

/// Whether a scanned clip is asked for: with `regex`, its name or its video's file name matches
/// the pattern; without, one of them is the identifier.
spec fn asked_for(c: LocalClip, file_name: Seq<char>, identifier: Seq<char>, regex: bool) -> bool {
    if regex {
        regex_is_match(identifier, c.name@) || regex_is_match(identifier, file_name)
    } else {
        c.name@ == identifier || file_name == identifier
    }
}

proof fn lemma_matching_members(scanned: Seq<(LocalClip, String)>, identifier: Seq<char>, regex: bool)
    ensures
        forall|i: int|
            0 <= i < scanned.len() && asked_for(scanned[i].0, scanned[i].1@, identifier, regex)
                ==> #[trigger] matching(scanned, identifier, regex).contains(scanned[i].0),
        forall|x: LocalClip|
            #[trigger] matching(scanned, identifier, regex).contains(x) ==> exists|j: int|
                0 <= j < scanned.len() && scanned[j].0 == x && asked_for(scanned[j].0, scanned[j].1@, identifier, regex),
    decreases scanned.len(),
{
    if scanned.len() > 0 {
        let init = scanned.drop_last();
        lemma_matching_members(init, identifier, regex);
        let m0 = matching(init, identifier, regex);
        let m = matching(scanned, identifier, regex);
        let last = scanned.last();
        assert forall|i: int|
            0 <= i < scanned.len() && asked_for(scanned[i].0, scanned[i].1@, identifier, regex)
                implies #[trigger] m.contains(scanned[i].0) by {
            if i < scanned.len() - 1 {
                assert(init[i] == scanned[i]);
                assert(m0.contains(init[i].0));
                let k = choose|k: int| 0 <= k < m0.len() && m0[k] == init[i].0;
                assert(m[k] == m0[k]);
            } else {
                assert(m[m.len() - 1] == last.0);
            }
        }
        assert forall|x: LocalClip| #[trigger] m.contains(x) implies exists|j: int|
            0 <= j < scanned.len() && scanned[j].0 == x && asked_for(scanned[j].0, scanned[j].1@, identifier, regex) by {
            let k = choose|k: int| 0 <= k < m.len() && m[k] == x;
            if k < m0.len() {
                assert(m0[k] == x);
                assert(m0.contains(x));
                let j = choose|j: int|
                    0 <= j < init.len() && init[j].0 == x && asked_for(init[j].0, init[j].1@, identifier, regex);
                assert(scanned[j] == init[j]);
            } else {
                assert(scanned[scanned.len() - 1] == last);
            }
        }
    }
}

/// Looking local clips up gives every scanned clip whose name or video file name the
/// identifier names (is equal to it, or, with `regex`, a pattern matching it), and only those,
/// in scan order; with `regex`, a pattern the engine refuses gives an error.
pub proof fn law_local_query(
    scanned: Seq<(LocalClip, String)>,
    identifier: Seq<char>,
    regex: bool,
    r: Result<Vec<LocalClip>, WayclipError>,
)
    requires
        regex && regex_rejects(identifier) ==> r matches Err(WayclipError::Regex(_)),
        !(regex && regex_rejects(identifier)) ==> (r matches Ok(v) && v@ == matching(scanned, identifier, regex)),
    ensures
        regex && regex_rejects(identifier) ==> r is Err,
        !(regex && regex_rejects(identifier)) ==> (r matches Ok(v) && {
            &&& forall|i: int|
                0 <= i < scanned.len() && regex && (regex_is_match(identifier, scanned[i].0.name@)
                    || regex_is_match(identifier, scanned[i].1@)) ==> #[trigger] v@.contains(scanned[i].0)
            &&& forall|i: int|
                0 <= i < scanned.len() && !regex && (scanned[i].0.name@ == identifier || scanned[i].1@
                    == identifier) ==> #[trigger] v@.contains(scanned[i].0)
            &&& forall|x: LocalClip| #[trigger] v@.contains(x) ==> exists|j: int|
                0 <= j < scanned.len() && scanned[j].0 == x && (if regex {
                    regex_is_match(identifier, scanned[j].0.name@) || regex_is_match(identifier, scanned[j].1@)
                } else {
                    scanned[j].0.name@ == identifier || scanned[j].1@ == identifier
                })
        }),
{
    lemma_matching_members(scanned, identifier, regex);
    if !(regex && regex_rejects(identifier)) {
        let v = r->Ok_0;
        assert forall|i: int|
            0 <= i < scanned.len() && regex && (regex_is_match(identifier, scanned[i].0.name@)
                || regex_is_match(identifier, scanned[i].1@)) implies #[trigger] v@.contains(scanned[i].0) by {
            assert(asked_for(scanned[i].0, scanned[i].1@, identifier, regex));
        }
        assert forall|i: int|
            0 <= i < scanned.len() && !regex && (scanned[i].0.name@ == identifier || scanned[i].1@
                == identifier) implies #[trigger] v@.contains(scanned[i].0) by {
            assert(asked_for(scanned[i].0, scanned[i].1@, identifier, regex));
        }
    }
}

} // verus!

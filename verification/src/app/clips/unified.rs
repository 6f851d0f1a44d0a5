//! Bringing local and hosted clips together into the list that the apps show.
use vstd::prelude::*;
use crate::models::clips::hosted::HostedClip;
use crate::models::clips::local::LocalClip;
use crate::models::clips::unified::UnifiedClip;
use crate::text::str_eq;

verus! {

/// The position of the first hosted clip with the id `id`.
pub open spec fn first_with_id(hs: Seq<HostedClip>, id: Seq<char>) -> Option<int>
    decreases hs.len(),
{
    if hs.len() == 0 {
        None
    } else if hs[0].clip_id@ == id {
        Some(0)
    } else {
        match first_with_id(hs.drop_first(), id) {
            Some(p) => Some(p + 1),
            None => None,
        }
    }
}

/// Links each local clip, in order, to the first hosted clip not yet linked whose id is the
/// local clip's uploaded id; gives each local clip's link and the hosted clips left over.
pub open spec fn link(locals: Seq<LocalClip>, hosted: Seq<HostedClip>) -> (
    Seq<Option<HostedClip>>,
    Seq<HostedClip>,
)
    decreases locals.len(),
{
    if locals.len() == 0 {
        (Seq::empty(), hosted)
    } else {
        let (links, rest) = link(locals.drop_last(), hosted);
        match locals.last().uploaded_id {
            None => (links.push(None), rest),
            Some(id) => match first_with_id(rest, id@) {
                Some(p) => (links.push(Some(rest[p])), rest.remove(p)),
                None => (links.push(None), rest),
            },
        }
    }
}

/// Whether the local clip's uploaded id is `id`.
pub open spec fn carries_id(l: LocalClip, id: Seq<char>) -> bool {
    match l.uploaded_id {
        Some(x) => x@ == id,
        None => false,
    }
}

/// Whether some local clip carries `h`'s id as its uploaded id.
pub open spec fn claimed(locals: Seq<LocalClip>, h: HostedClip) -> bool {
    exists|k: int| 0 <= k < locals.len() && carries_id(#[trigger] locals[k], h.clip_id@)
}

/// The hosted clips of `rest`, in order, that no local clip claims.
pub open spec fn unclaimed(rest: Seq<HostedClip>, locals: Seq<LocalClip>) -> Seq<HostedClip>
    decreases rest.len(),
{
    if rest.len() == 0 {
        Seq::empty()
    } else {
        let init = unclaimed(rest.drop_last(), locals);
        if claimed(locals, rest.last()) {
            init
        } else {
            init.push(rest.last())
        }
    }
}

/// The positions, in order, of the local clips that carry an uploaded id but found no hosted
/// clip with it.
pub open spec fn dangling(locals: Seq<LocalClip>, links: Seq<Option<HostedClip>>) -> Seq<usize>
    decreases locals.len(),
{
    if locals.len() == 0 {
        Seq::empty()
    } else {
        let init = dangling(locals.drop_last(), links);
        let k = locals.len() - 1;
        if locals.last().uploaded_id is Some && links[k] is None {
            init.push(k as usize)
        } else {
            init
        }
    }
}

/// The unified clip of a local clip and its link.
pub open spec fn local_entry(l: LocalClip, h: Option<HostedClip>, u: UnifiedClip) -> bool {
    &&& u.name@ == l.name@
    &&& u.created_at == l.created_at
    &&& u.local == Some(l)
    &&& u.hosted == h
}

/// The unified clip of a hosted clip that no local clip claims.
pub open spec fn hosted_entry(h: HostedClip, u: UnifiedClip) -> bool {
    &&& u.name@ == h.clip_name@
    &&& u.created_at == h.uploaded_at
    &&& u.local is None
    &&& u.hosted == Some(h)
}

fn find_id(rest: &Vec<HostedClip>, id: &String) -> (r: Option<usize>)
    ensures
        r matches Some(p) ==> p < rest@.len(),
        match first_with_id(rest@, id@) {
            Some(p) => r matches Some(x) && x == p,
            None => r is None,
        },
{
    let mut j: usize = 0;
    assert(rest@.skip(0) =~= rest@);
    while j < rest.len()
        invariant
            j <= rest@.len(),
            forall|t: int| 0 <= t < j ==> (#[trigger] rest@[t]).clip_id@ != id@,
            first_with_id(rest@, id@) == match first_with_id(rest@.skip(j as int), id@) {
                Some(p) => Some(p + j),
                None => None,
            },
        decreases rest@.len() - j,
    {
        assert(rest@.skip(j as int)[0] == rest@[j as int]);
        assert(rest@.skip(j as int).drop_first() =~= rest@.skip(j + 1));
        if str_eq(rest[j].clip_id.as_str(), id.as_str()) {
            return Some(j);
        }
        j = j + 1;
    }
    assert(rest@.skip(j as int) =~= Seq::<HostedClip>::empty());
    None
}

/// Brings the local clips and the hosted clips together: every local clip, in order, linked
/// to the hosted clip with its uploaded id (see `link`), then every hosted clip left that no
/// local clip claims. Also gives the positions of the local clips whose uploaded id matched no
/// hosted clip: their link is stale, and the caller clears it in their stored metadata.
pub fn unify_clips(locals: Vec<LocalClip>, hosted: Vec<HostedClip>) -> (r: (
    Vec<UnifiedClip>,
    Vec<usize>,
))
    ensures
        ({
            let (links, rest) = link(locals@, hosted@);
            let kept = unclaimed(rest, locals@);
            &&& r.0@.len() == locals@.len() + kept.len()
            &&& forall|k: int|
                0 <= k < locals@.len() ==> local_entry(locals@[k], links[k], #[trigger] r.0@[k])
            &&& forall|j: int|
                0 <= j < kept.len() ==> hosted_entry(kept[j], #[trigger] r.0@[locals@.len() + j])
            &&& r.1@ == dangling(locals@, links)
        }),
{
    let ghost ls = locals@;
    let ghost hs = hosted@;
    let mut pending = locals;
    let mut rest = hosted;
    let mut out: Vec<UnifiedClip> = Vec::new();
    let mut stale: Vec<usize> = Vec::new();
    let n = pending.len();
    let mut i: usize = 0;
    assert(ls.skip(0) =~= ls);
    assert(ls.subrange(0, 0) =~= Seq::<LocalClip>::empty());
    while i < n
        invariant
            n == ls.len(),
            i <= n,
            pending@ == ls.skip(i as int),
            out@.len() == i,
            ({
                let (links, left) = link(ls.subrange(0, i as int), hs);
                &&& rest@ == left
                &&& links.len() == i
                &&& forall|k: int| 0 <= k < i ==> local_entry(ls[k], links[k], #[trigger] out@[k])
                &&& stale@ == dangling(ls.subrange(0, i as int), links)
            }),
        decreases n - i,
    {
        let ghost pre = ls.subrange(0, i as int);
        let ghost next = ls.subrange(0, i + 1);
        assert(next.drop_last() =~= pre);
        let ghost (links0, left0) = link(pre, hs);
        let l = pending.remove(0);
        assert(ls.skip(i as int)[0] == ls[i as int]);
        assert(ls.skip(i as int).remove(0) =~= ls.skip(i + 1));
        assert(next.last() == l);
        let name = l.name.clone();
        let created_at = l.created_at;
        let mut linked: Option<HostedClip> = None;
        let mut dangles = false;
        let ghost rest0 = rest@;
        assert(rest0 == left0);
        assert(link(next.drop_last(), hs) == (links0, left0));
        match &l.uploaded_id {
            Some(id) => {
                match find_id(&rest, id) {
                    Some(p) => {
                        let h = rest.remove(p);
                        assert(h == rest0[p as int]);
                        linked = Some(h);
                        assert(next.last().uploaded_id == Some(*id));
                        assert(first_with_id(left0, id@) == Some(p as int));
                        assert(rest@ =~= left0.remove(p as int));
                        assert(linked == Some(left0[p as int]));
                        assert(link(next, hs) == (links0.push(linked), rest@));
                    },
                    None => {
                        dangles = true;
                        assert(link(next, hs) == (links0.push(linked), rest@));
                    },
                }
            },
            None => {
                assert(link(next, hs) == (links0.push(linked), rest@));
            },
        }
        assert(link(next, hs) == (links0.push(linked), rest@));
        let ghost (links1, left1) = link(next, hs);
        proof {
            assert forall|k: int| 0 <= k < i implies local_entry(ls[k], links1[k], #[trigger] out@[k]) by {
                assert(links1[k] == links0[k]);
            }
            assert(dangling(pre, links0) =~= dangling(pre, links1)) by {
                lemma_dangling_extend(pre, links0, linked);
            }
        }
        if dangles {
            stale.push(i);
        }
        out.push(UnifiedClip { name, created_at, local: Some(l), hosted: linked });
        i = i + 1;
    }
    assert(ls.subrange(0, n as int) =~= ls);
    let ghost (links, left) = link(ls, hs);
    assert(links.len() == n);
    let ghost kept = unclaimed(left, ls);
    let m = rest.len();
    let mut j: usize = 0;
    let ghost mut taken: Seq<HostedClip> = Seq::empty();
    assert(left.subrange(0, 0) =~= Seq::<HostedClip>::empty());
    while rest.len() > 0
        invariant
            n == ls.len(),
            m == left.len(),
            links.len() == n,
            j <= m,
            rest@ == left.skip(j as int),
            rest@.len() == m - j,
            taken == unclaimed(left.subrange(0, j as int), ls),
            out@.len() == n + taken.len(),
            forall|k: int| 0 <= k < n ==> local_entry(ls[k], links[k], #[trigger] out@[k]),
            forall|t: int| 0 <= t < taken.len() ==> hosted_entry(taken[t], #[trigger] out@[n + t]),
            forall|k: int|
                0 <= k < n ==> (#[trigger] out@[k]).local == Some(ls[k]),
        decreases rest@.len(),
    {
        let h = rest.remove(0);
        assert(left.skip(j as int)[0] == left[j as int]);
        assert(left.skip(j as int).remove(0) =~= left.skip(j + 1));
        let ghost pre = left.subrange(0, j as int);
        let ghost next = left.subrange(0, j + 1);
        assert(next.drop_last() =~= pre);
        assert(next.last() == h);
        let mut is_claimed = false;
        let mut k: usize = 0;
        while k < n
            invariant
                k <= n,
                n == ls.len(),
                n <= out@.len(),
                forall|q: int| 0 <= q < n ==> (#[trigger] out@[q]).local == Some(ls[q]),
                is_claimed == exists|q: int| 0 <= q < k && carries_id(#[trigger] ls[q], h.clip_id@),
            decreases n - k,
        {
            let ghost lq = ls[k as int];
            assert(out@[k as int].local == Some(lq));
            match &out[k].local {
                Some(local) => match &local.uploaded_id {
                    Some(id) => {
                        if str_eq(id.as_str(), h.clip_id.as_str()) {
                            is_claimed = true;
                        }
                    },
                    None => {},
                },
                None => {},
            }
            k = k + 1;
        }
        assert(is_claimed == claimed(ls, h));
        if !is_claimed {
            let name = h.clip_name.clone();
            let created_at = h.uploaded_at;
            out.push(UnifiedClip { name, created_at, local: None, hosted: Some(h) });
        }
        proof {
            taken = unclaimed(next, ls);
        }
        j = j + 1;
    }
    assert(left.subrange(0, m as int) =~= left);
    (out, stale)
}

proof fn lemma_dangling_extend(
    locals: Seq<LocalClip>,
    links: Seq<Option<HostedClip>>,
    x: Option<HostedClip>,
)
    requires
        links.len() >= locals.len(),
    ensures
        dangling(locals, links) == dangling(locals, links.push(x)),
    decreases locals.len(),
{
    if locals.len() > 0 {
        lemma_dangling_extend(locals.drop_last(), links, x);
        assert(links.push(x)[locals.len() - 1] == links[locals.len() - 1]);
    }
}

} // verus!

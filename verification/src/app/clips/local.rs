//! Changes to a local clip's metadata, and the clips that pruning deletes.
use vstd::prelude::*;
use crate::models::clips::games::ClipsGames;
use crate::models::clips::local::LocalClip;
use crate::models::clips::tags::{ClipsClipTagColor, ClipsTag};
use crate::settings::output::{age_hours, join_path, join_path_exec, Prune, VideoFormat};
use crate::settings::recording::{Bitrate, Fps, Resolution};
use crate::text::{push_str, str_eq};

verus! {

impl LocalClip {
    /// A newly recorded clip: made at `now`, running over the whole video of `duration_ms`
    /// milliseconds, whose file holds `file_size_bytes` bytes (counted in whole megabytes of a
    /// million bytes); not modified, uploaded, tagged or liked.
    pub fn recorded(
        name: String,
        video_format: VideoFormat,
        video_path: String,
        preview_path: String,
        metadata_path: String,
        detected_game: Option<ClipsGames>,
        duration_ms: u64,
        file_size_bytes: u64,
        now: i64,
        bitrate_kbps: Bitrate,
        resolution: Resolution,
        fps: Fps,
    ) -> (c: LocalClip)
        ensures
            c == (LocalClip {
                name,
                video_path,
                metadata_path,
                preview_path,
                created_at: now,
                modified_at: None,
                uploaded_at: None,
                uploaded_id: None,
                clip_tags: c.clip_tags,
                liked: false,
                clip_start_ms: 0,
                clip_end_ms: duration_ms,
                file_duration_ms: duration_ms,
                file_size_mb: file_size_bytes / 1_000_000,
                video_format,
                bitrate_kbps,
                resolution,
                fps,
                detected_game,
            }),
            c.clip_tags@.len() == 0,
    {
        LocalClip {
            name,
            video_path,
            metadata_path,
            preview_path,
            created_at: now,
            modified_at: None,
            uploaded_at: None,
            uploaded_id: None,
            clip_tags: Vec::new(),
            liked: false,
            clip_start_ms: 0,
            clip_end_ms: duration_ms,
            file_duration_ms: duration_ms,
            file_size_mb: file_size_bytes / 1_000_000,
            video_format,
            bitrate_kbps,
            resolution,
            fps,
            detected_game,
        }
    }
    /// Renames the clip in its metadata (the file keeps its name).
    pub fn set_name(&mut self, new_name: String)
        ensures
            *final(self) == (LocalClip { name: new_name, ..*old(self) }),
    {
        self.name = new_name;
    }

    /// Sets the clip's game.
    pub fn set_game_type(&mut self, new_game_type: Option<ClipsGames>)
        ensures
            *final(self) == (LocalClip { detected_game: new_game_type, ..*old(self) }),
    {
        self.detected_game = new_game_type;
    }

    /// Replaces the clip's tags.
    pub fn set_local_tags(&mut self, tags: Vec<ClipsTag>)
        ensures
            *final(self) == (LocalClip { clip_tags: tags, ..*old(self) }),
    {
        self.clip_tags = tags;
    }

    /// Adds a tag at the end of the clip's tags.
    pub fn add_local_tag(&mut self, name: String, color: ClipsClipTagColor)
        ensures
            final(self).clip_tags@ == old(self).clip_tags@.push(ClipsTag { name, color }),
            *final(self) == (LocalClip { clip_tags: final(self).clip_tags, ..*old(self) }),
    {
        self.clip_tags.push(ClipsTag { name, color });
    }

    /// Removes every tag named `tag`, keeping the others in order.
    pub fn remove_local_tag(&mut self, tag: &str)
        ensures
            final(self).clip_tags@ == old(self).clip_tags@.filter(|t: ClipsTag| t.name@ != tag@),
            *final(self) == (LocalClip { clip_tags: final(self).clip_tags, ..*old(self) }),
    {
        let ghost before = self.clip_tags@;
        proof {
            reveal(Seq::filter);
        }
        let mut kept: Vec<ClipsTag> = Vec::new();
        let mut old_tags: Vec<ClipsTag> = Vec::new();
        std::mem::swap(&mut old_tags, &mut self.clip_tags);
        let n = old_tags.len();
        let mut i: usize = 0;
        assert(before.skip(0) =~= before);
        assert(before.subrange(0, 0).filter(|t: ClipsTag| t.name@ != tag@) =~= Seq::<ClipsTag>::empty());
        while i < n
            invariant
                n == before.len(),
                i <= n,
                old_tags@ == before.skip(i as int),
                kept@ == before.subrange(0, i as int).filter(|t: ClipsTag| t.name@ != tag@),
            decreases n - i,
        {
            let t = old_tags.remove(0);
            proof {
                reveal(Seq::filter);
            }
            assert(before.skip(i as int)[0] == before[i as int]);
            assert(before.skip(i as int).remove(0) =~= before.skip(i + 1));
            assert(before.subrange(0, i + 1).drop_last() =~= before.subrange(0, i as int));
            assert(before.subrange(0, i + 1).last() == t);
            if !str_eq(t.name.as_str(), tag) {
                kept.push(t);
            }
            i = i + 1;
        }
        assert(before.subrange(0, n as int) =~= before);
        self.clip_tags = kept;
    }

    /// Toggles whether the clip is liked.
    pub fn toggle_local_like(&mut self)
        ensures
            *final(self) == (LocalClip { liked: !old(self).liked, ..*old(self) }),
    {
        self.liked = !self.liked;
    }

    /// Forgets the hosted clip that this clip was uploaded as.
    pub fn remove_hosted_connection(&mut self)
        ensures
            *final(self) == (LocalClip { uploaded_at: None, uploaded_id: None, ..*old(self) }),
    {
        self.uploaded_at = None;
        self.uploaded_id = None;
    }

    /// Records that the clip was uploaded at `at` as the hosted clip `id`.
    pub fn mark_uploaded(&mut self, at: i64, id: String)
        ensures
            *final(self) == (LocalClip { uploaded_at: Some(at), uploaded_id: Some(id), ..*old(self) }),
    {
        self.uploaded_at = Some(at);
        self.uploaded_id = Some(id);
    }

    /// Records a trim: the new file's size and duration, the clip now running from its start to
    /// its end.
    pub fn apply_trim(&mut self, new_duration_ms: u64, new_file_size_mb: u64)
        ensures
            *final(self) == (LocalClip {
                file_size_mb: new_file_size_mb,
                file_duration_ms: new_duration_ms,
                clip_end_ms: new_duration_ms,
                clip_start_ms: 0,
                ..*old(self)
            }),
    {
        self.file_size_mb = new_file_size_mb;
        self.file_duration_ms = new_duration_ms;
        self.clip_end_ms = new_duration_ms;
        self.clip_start_ms = 0;
    }

    /// Moves the clip to the video file `video_path` named `name` (a trimmed copy): its
    /// metadata goes to `<metadata_dir>/<name>.json` and its preview to
    /// `<preview_dir>/<name>.preview.mkv`.
    pub fn relocate(&mut self, name: String, video_path: String, metadata_dir: &str, preview_dir: &str)
        ensures
            final(self).metadata_path@ == join_path(metadata_dir@, name@ + ".json"@),
            final(self).preview_path@ == join_path(preview_dir@, name@ + ".preview.mkv"@),
            final(self).name == name,
            final(self).video_path == video_path,
            *final(self) == (LocalClip {
                name: final(self).name,
                video_path: final(self).video_path,
                metadata_path: final(self).metadata_path,
                preview_path: final(self).preview_path,
                ..*old(self)
            }),
    {
        let mut meta_file = name.clone();
        push_str(&mut meta_file, ".json");
        let mut preview_file = name.clone();
        push_str(&mut preview_file, ".preview.mkv");
        self.metadata_path = join_path_exec(metadata_dir, meta_file.as_str());
        self.preview_path = join_path_exec(preview_dir, preview_file.as_str());
        self.name = name;
        self.video_path = video_path;
    }
}

/// Whether clip `a` comes before clip `b` newest first: created later, or at the same time and
/// listed earlier.
pub open spec fn newer_first(cs: Seq<LocalClip>, a: int, b: int) -> bool {
    ||| cs[a].created_at > cs[b].created_at
    ||| (cs[a].created_at == cs[b].created_at && a < b)
}

/// `order` lists the positions of the clips newest first (a stable sort by creation time).
pub open spec fn newest_first_order(cs: Seq<LocalClip>, order: Seq<usize>) -> bool {
    &&& order.len() == cs.len()
    &&& forall|k: int| 0 <= k < order.len() ==> #[trigger] order[k] < cs.len()
    &&& forall|a: int, b: int|
        0 <= a < b < order.len() ==> newer_first(cs, #[trigger] order[a] as int, #[trigger] order[b] as int)
}

/// The total size of the first `k` clips of `order`.
pub open spec fn prefix_mb(cs: Seq<LocalClip>, order: Seq<usize>, k: int) -> int
    decreases k,
{
    if k <= 0 {
        0
    } else {
        prefix_mb(cs, order, k - 1) + cs[order[k - 1] as int].file_size_mb
    }
}

/// How many of the newest clips are kept under a size limit: popping the oldest until the
/// total is at most `limit`.
pub open spec fn kept_under(cs: Seq<LocalClip>, order: Seq<usize>, limit: int, k: int) -> int
    decreases k,
{
    if k <= 0 || prefix_mb(cs, order, k) <= limit {
        k
    } else {
        kept_under(cs, order, limit, k - 1)
    }
}

/// The positions, in order, of the clips that satisfy `p`.
pub open spec fn positions(cs: Seq<LocalClip>, p: spec_fn(LocalClip) -> bool) -> Seq<usize>
    decreases cs.len(),
{
    if cs.len() == 0 {
        Seq::empty()
    } else {
        let init = positions(cs.drop_last(), p);
        if p(cs.last()) {
            init.push((cs.len() - 1) as usize)
        } else {
            init
        }
    }
}

/// The clips that pruning deletes, in the order it deletes them, given the newest-first order
/// and the time `now` (milliseconds since the Unix epoch): those older than the age (with the
/// age's length truncated to a signed 64-bit count of milliseconds), those longer than the
/// duration, or the oldest ones beyond the count or the size limit, oldest first.
pub open spec fn prune_plan_spec(
    prune: Prune,
    cs: Seq<LocalClip>,
    now: i64,
    order: Seq<usize>,
) -> Seq<usize> {
    match prune {
        Prune::Disabled => Seq::empty(),
        Prune::Age(a) => positions(
            cs,
            |c: LocalClip| now - c.created_at > ((age_hours(a) * 3600 * 1000) as i64),
        ),
        Prune::DurationS(d) => positions(cs, |c: LocalClip| c.file_duration_ms > d * 1000),
        Prune::Clips(n) => if n != 0 && cs.len() > n {
            order.subrange(n as int, cs.len() as int).reverse()
        } else {
            Seq::empty()
        },
        Prune::SizeMb(s) => order.subrange(
            kept_under(cs, order, s as int, cs.len() as int),
            cs.len() as int,
        ).reverse(),
    }
}

/// Whether pruning with `prune` can be computed without overflow: the age in seconds and the
/// duration in milliseconds fit in 64 bits.
pub open spec fn prune_in_range(prune: Prune) -> bool {
    match prune {
        Prune::Age(a) => age_hours(a) * 3600 <= u64::MAX,
        Prune::DurationS(d) => d * 1000 <= u64::MAX,
        _ => true,
    }
}

fn newest_first(cs: &Vec<LocalClip>) -> (order: Vec<usize>)
    ensures
        newest_first_order(cs@, order@),
{
    let n = cs.len();
    let mut order: Vec<usize> = Vec::new();
    let mut i: usize = 0;
    while i < n
        invariant
            n == cs@.len(),
            i <= n,
            order@.len() == i,
            forall|k: int| 0 <= k < order@.len() ==> #[trigger] order@[k] < i,
            forall|a: int, b: int|
                0 <= a < b < order@.len() ==> newer_first(cs@, #[trigger] order@[a] as int, #[trigger] order@[b] as int),
        decreases n - i,
    {
        let ci = cs[i].created_at;
        let mut p: usize = 0;
        loop
            invariant
                p <= order@.len(),
                n == cs@.len(),
                i < n,
                ci == cs@[i as int].created_at,
                forall|k: int| 0 <= k < order@.len() ==> #[trigger] order@[k] < i,
                forall|q: int| 0 <= q < p ==> cs@[#[trigger] order@[q] as int].created_at >= ci,
            ensures
                p <= order@.len(),
                forall|q: int| 0 <= q < p ==> cs@[#[trigger] order@[q] as int].created_at >= ci,
                p < order@.len() ==> cs@[order@[p as int] as int].created_at < ci,
            decreases order@.len() - p,
        {
            if p == order.len() {
                break;
            }
            if cs[order[p]].created_at < ci {
                break;
            }
            p = p + 1;
        }
        let ghost o = order@;
        order.insert(p, i);
        proof {
            let o2 = order@;
            assert(o2 =~= o.insert(p as int, i));
            assert forall|k: int| 0 <= k < o2.len() implies #[trigger] o2[k] < i + 1 by {
                if k < p {
                    assert(o2[k] == o[k]);
                } else if k > p {
                    assert(o2[k] == o[k - 1]);
                }
            }
            assert forall|a: int, b: int| 0 <= a < b < o2.len() implies newer_first(
                cs@,
                #[trigger] o2[a] as int,
                #[trigger] o2[b] as int,
            ) by {
                if b < p {
                    assert(o2[a] == o[a] && o2[b] == o[b]);
                } else if b == p {
                    assert(o2[a] == o[a]);
                    assert(cs@[o[a] as int].created_at >= ci);
                } else if a < p {
                    assert(o2[a] == o[a] && o2[b] == o[b - 1]);
                } else if a == p {
                    assert(o2[b] == o[b - 1]);
                    assert(cs@[o[p as int] as int].created_at < ci);
                    if b - 1 > p {
                        assert(newer_first(cs@, o[p as int] as int, o[b - 1] as int));
                    }
                } else {
                    assert(o2[a] == o[a - 1] && o2[b] == o[b - 1]);
                }
            }
        }
        i = i + 1;
    }
    order
}

fn positions_where_older(cs: &Vec<LocalClip>, now: i64, threshold: i64) -> (r: Vec<usize>)
    ensures
        r@ == positions(cs@, |c: LocalClip| now - c.created_at > threshold),
{
    let ghost p = |c: LocalClip| now - c.created_at > threshold;
    let mut r: Vec<usize> = Vec::new();
    let mut i: usize = 0;
    assert(cs@.subrange(0, 0) =~= Seq::<LocalClip>::empty());
    while i < cs.len()
        invariant
            i <= cs@.len(),
            p == (|c: LocalClip| now - c.created_at > threshold),
            r@ == positions(cs@.subrange(0, i as int), p),
        decreases cs@.len() - i,
    {
        assert(cs@.subrange(0, i + 1).drop_last() =~= cs@.subrange(0, i as int));
        let age: i128 = now as i128 - cs[i].created_at as i128;
        if age > threshold as i128 {
            r.push(i);
        }
        i = i + 1;
    }
    assert(cs@.subrange(0, cs@.len() as int) =~= cs@);
    r
}

fn positions_where_longer(cs: &Vec<LocalClip>, limit_ms: u64) -> (r: Vec<usize>)
    ensures
        r@ == positions(cs@, |c: LocalClip| c.file_duration_ms > limit_ms),
{
    let ghost p = |c: LocalClip| c.file_duration_ms > limit_ms;
    let mut r: Vec<usize> = Vec::new();
    let mut i: usize = 0;
    assert(cs@.subrange(0, 0) =~= Seq::<LocalClip>::empty());
    while i < cs.len()
        invariant
            i <= cs@.len(),
            p == (|c: LocalClip| c.file_duration_ms > limit_ms),
            r@ == positions(cs@.subrange(0, i as int), p),
        decreases cs@.len() - i,
    {
        assert(cs@.subrange(0, i + 1).drop_last() =~= cs@.subrange(0, i as int));
        if cs[i].file_duration_ms > limit_ms {
            r.push(i);
        }
        i = i + 1;
    }
    assert(cs@.subrange(0, cs@.len() as int) =~= cs@);
    r
}

/// The last `len - keep` positions of `order`, last first.
fn tail_reversed(order: &Vec<usize>, keep: usize) -> (r: Vec<usize>)
    requires
        keep <= order@.len(),
    ensures
        r@ == order@.subrange(keep as int, order@.len() as int).reverse(),
{
    let mut r: Vec<usize> = Vec::new();
    let mut k = order.len();
    while k > keep
        invariant
            keep <= k <= order@.len(),
            r@ == order@.subrange(k as int, order@.len() as int).reverse(),
        decreases k,
    {
        k = k - 1;
        r.push(order[k]);
        assert(r@ =~= order@.subrange(k as int, order@.len() as int).reverse());
    }
    r
}

proof fn lemma_prefix_bound(cs: Seq<LocalClip>, order: Seq<usize>, k: int)
    requires
        0 <= k,
    ensures
        0 <= prefix_mb(cs, order, k) <= k * 0xFFFF_FFFF_FFFF_FFFF,
    decreases k,
{
    if k > 0 {
        lemma_prefix_bound(cs, order, k - 1);
    }
}

impl LocalClip {
    /// The positions of the clips that pruning with `prune` deletes, in deletion order, at the
    /// time `now` (see `prune_plan_spec`).
    pub fn prune_plan(prune: &Prune, clips: &Vec<LocalClip>, now: i64) -> (r: Vec<usize>)
        requires
            prune_in_range(*prune),
        ensures
            exists|order: Seq<usize>|
                newest_first_order(clips@, order) && r@ == prune_plan_spec(*prune, clips@, now, order),
    {
        let order = newest_first(clips);
        let n = clips.len();
        let r = match prune {
            Prune::Disabled => Vec::new(),
            Prune::Age(a) => {
                let secs = a.get_duration();
                let ms: i128 = secs as i128 * 1000;
                let threshold = #[verifier::truncate] (ms as i64);
                positions_where_older(clips, now, threshold)
            },
            Prune::DurationS(d) => positions_where_longer(clips, *d * 1000),
            Prune::Clips(c) => {
                if *c != 0 && n > *c {
                    tail_reversed(&order, *c)
                } else {
                    Vec::new()
                }
            },
            Prune::SizeMb(s) => {
                let mut total: u128 = 0;
                let mut j: usize = 0;
                while j < n
                    invariant
                        n == clips@.len(),
                        newest_first_order(clips@, order@),
                        j <= n,
                        total == prefix_mb(clips@, order@, j as int),
                    decreases n - j,
                {
                    proof {
                        lemma_prefix_bound(clips@, order@, j as int);
                        assert(j * 0xFFFF_FFFF_FFFF_FFFFint + 0xFFFF_FFFF_FFFF_FFFFint <= 0xFFFF_FFFF_FFFF_FFFF_FFFF_FFFF_FFFF_FFFFint) by (nonlinear_arith)
                            requires j < 0x1_0000_0000_0000_0000int;
                    }
                    total = total + clips[order[j]].file_size_mb as u128;
                    j = j + 1;
                }
                let mut k = n;
                while k > 0 && total > *s as u128
                    invariant
                        n == clips@.len(),
                        newest_first_order(clips@, order@),
                        k <= n,
                        total == prefix_mb(clips@, order@, k as int),
                        kept_under(clips@, order@, *s as int, n as int) == kept_under(
                            clips@,
                            order@,
                            *s as int,
                            k as int,
                        ),
                    decreases k,
                {
                    k = k - 1;
                    proof {
                        lemma_prefix_bound(clips@, order@, k as int);
                    }
                    total = total - clips[order[k]].file_size_mb as u128;
                }
                tail_reversed(&order, k)
            },
        };
        assert(newest_first_order(clips@, order@) && r@ == prune_plan_spec(*prune, clips@, now, order@));
        r
    }
}

} // verus!

verus! {

proof fn lemma_filter_keeps_all(s: Seq<ClipsTag>, p: spec_fn(ClipsTag) -> bool)
    requires
        forall|i: int| 0 <= i < s.len() ==> p(#[trigger] s[i]),
    ensures
        s.filter(p) == s,
    decreases s.len(),
{
    reveal(Seq::filter);
    if s.len() > 0 {
        let init = s.drop_last();
        assert forall|i: int| 0 <= i < init.len() implies p(#[trigger] init[i]) by {
            assert(init[i] == s[i]);
        }
        lemma_filter_keeps_all(init, p);
        assert(init.push(s.last()) =~= s);
    }
}

/// Removing a tag right after adding it, under a name no other tag has, gives back the tags
/// as they were.
pub proof fn law_remove_undoes_add(tags: Seq<ClipsTag>, name: String, color: ClipsClipTagColor)
    requires
        forall|i: int| 0 <= i < tags.len() ==> (#[trigger] tags[i]).name@ != name@,
    ensures
        tags.push(ClipsTag { name, color }).filter(|t: ClipsTag| t.name@ != name@) == tags,
{
    reveal(Seq::filter);
    let p = |t: ClipsTag| t.name@ != name@;
    let s = tags.push(ClipsTag { name, color });
    assert(s.drop_last() =~= tags);
    lemma_filter_keeps_all(tags, p);
    assert(s.filter(p) == tags);
}

/// Liking twice gives back the clip as it was.
pub proof fn law_toggle_like_twice(c: LocalClip)
    ensures
        (LocalClip { liked: !(LocalClip { liked: !c.liked, ..c }).liked, ..c }) == c,
{
}

} // verus!

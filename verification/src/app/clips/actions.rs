//! The actions that can be taken on a selected clip.
use vstd::prelude::*;
use crate::models::clips::unified::SelectedClip;
use crate::models::clips::hosted::HostedClip;
use crate::models::clips::local::LocalClip;

verus! {

/// All the actions a user can take on a clip, local, hosted or both. They are offered in the
/// order of declaration.
#[derive(Debug, Clone, Copy, PartialEq, Eq, PartialOrd, Ord, Hash, Structural)]
pub enum MixedClipActions {
    /// Viewing the clip, in the browser or a player
    View,
    /// Copying the clip's name (from its metadata) to the clipboard
    CopyName,
    /// Copying the clip's full path to the clipboard
    CopyPath,
    /// Opening the folder the clip is stored in
    OpenPath,
    /// Uploading a local clip to the Wayclip API
    Upload,
    /// Marking the clip as liked
    Like,
    /// Trimming the clip
    Trim,
    /// Changing the clip's name
    ChangeName,
    /// Changing the clip's tags
    ChangeTag,
    /// Changing the clip's game
    ChangeGame,
    /// Changing who can see a hosted clip
    ChangeVisibility,
    /// Deleting the clip, locally or from the API
    Delete,
}

impl MixedClipActions {
    /// The position of the action in the declaration order.
    pub open spec fn rank(self) -> int {
        match self {
            MixedClipActions::View => 0,
            MixedClipActions::CopyName => 1,
            MixedClipActions::CopyPath => 2,
            MixedClipActions::OpenPath => 3,
            MixedClipActions::Upload => 4,
            MixedClipActions::Like => 5,
            MixedClipActions::Trim => 6,
            MixedClipActions::ChangeName => 7,
            MixedClipActions::ChangeTag => 8,
            MixedClipActions::ChangeGame => 9,
            MixedClipActions::ChangeVisibility => 10,
            MixedClipActions::Delete => 11,
        }
    }

    fn rank_exec(&self) -> (r: u8)
        ensures
            r == self.rank(),
    {
        match self {
            MixedClipActions::View => 0,
            MixedClipActions::CopyName => 1,
            MixedClipActions::CopyPath => 2,
            MixedClipActions::OpenPath => 3,
            MixedClipActions::Upload => 4,
            MixedClipActions::Like => 5,
            MixedClipActions::Trim => 6,
            MixedClipActions::ChangeName => 7,
            MixedClipActions::ChangeTag => 8,
            MixedClipActions::ChangeGame => 9,
            MixedClipActions::ChangeVisibility => 10,
            MixedClipActions::Delete => 11,
        }
    }

    /// The displayed form.
    pub open spec fn display(self) -> Seq<char> {
        match self {
            MixedClipActions::View => "View"@,
            MixedClipActions::CopyName => "Copy Name"@,
            MixedClipActions::CopyPath => "Copy Path"@,
            MixedClipActions::OpenPath => "Open Path"@,
            MixedClipActions::Upload => "Upload"@,
            MixedClipActions::Like => "Like"@,
            MixedClipActions::Trim => "Trim"@,
            MixedClipActions::ChangeName => "Change Name"@,
            MixedClipActions::ChangeTag => "Change Tag"@,
            MixedClipActions::ChangeGame => "Change Game"@,
            MixedClipActions::ChangeVisibility => "Change Visibility"@,
            MixedClipActions::Delete => "Delete"@,
        }
    }

    pub fn to_string(&self) -> (s: String)
        ensures
            s@ == self.display(),
    {
        match self {
            MixedClipActions::View => "View".to_owned(),
            MixedClipActions::CopyName => "Copy Name".to_owned(),
            MixedClipActions::CopyPath => "Copy Path".to_owned(),
            MixedClipActions::OpenPath => "Open Path".to_owned(),
            MixedClipActions::Upload => "Upload".to_owned(),
            MixedClipActions::Like => "Like".to_owned(),
            MixedClipActions::Trim => "Trim".to_owned(),
            MixedClipActions::ChangeName => "Change Name".to_owned(),
            MixedClipActions::ChangeTag => "Change Tag".to_owned(),
            MixedClipActions::ChangeGame => "Change Game".to_owned(),
            MixedClipActions::ChangeVisibility => "Change Visibility".to_owned(),
            MixedClipActions::Delete => "Delete".to_owned(),
        }
    }

    /// The actions on a clip that is both local and hosted.
    pub open spec fn both_spec() -> Seq<MixedClipActions> {
        seq![
            MixedClipActions::Delete,
            MixedClipActions::ChangeTag,
            MixedClipActions::ChangeName,
            MixedClipActions::ChangeGame,
            MixedClipActions::CopyName,
        ]
    }

    /// The actions on a local clip, `Upload` aside.
    pub open spec fn local_spec() -> Seq<MixedClipActions> {
        seq![
            MixedClipActions::Like,
            MixedClipActions::View,
            MixedClipActions::Delete,
            MixedClipActions::ChangeTag,
            MixedClipActions::ChangeName,
            MixedClipActions::Trim,
            MixedClipActions::ChangeGame,
            MixedClipActions::CopyPath,
            MixedClipActions::CopyName,
            MixedClipActions::OpenPath,
        ]
    }

    /// The actions on a hosted clip.
    pub open spec fn hosted_spec() -> Seq<MixedClipActions> {
        seq![
            MixedClipActions::View,
            MixedClipActions::Delete,
            MixedClipActions::ChangeTag,
            MixedClipActions::ChangeName,
            MixedClipActions::ChangeGame,
            MixedClipActions::ChangeVisibility,
            MixedClipActions::CopyName,
        ]
    }

    /// The actions that both hosted and local clips can use.
    pub fn get_both() -> (v: Vec<Self>)
        ensures
            v@ == Self::both_spec(),
    {
        vec![
            MixedClipActions::Delete,
            MixedClipActions::ChangeTag,
            MixedClipActions::ChangeName,
            MixedClipActions::ChangeGame,
            MixedClipActions::CopyName,
        ]
    }

    /// The actions that local clips can use; `Upload` depends on the settings and is not among
    /// them.
    pub fn get_local() -> (v: Vec<Self>)
        ensures
            v@ == Self::local_spec(),
    {
        vec![
            MixedClipActions::Like,
            MixedClipActions::View,
            MixedClipActions::Delete,
            MixedClipActions::ChangeTag,
            MixedClipActions::ChangeName,
            MixedClipActions::Trim,
            MixedClipActions::ChangeGame,
            MixedClipActions::CopyPath,
            MixedClipActions::CopyName,
            MixedClipActions::OpenPath,
        ]
    }

    /// The actions that hosted clips can use.
    pub fn get_hosted() -> (v: Vec<Self>)
        ensures
            v@ == Self::hosted_spec(),
    {
        vec![
            MixedClipActions::View,
            MixedClipActions::Delete,
            MixedClipActions::ChangeTag,
            MixedClipActions::ChangeName,
            MixedClipActions::ChangeGame,
            MixedClipActions::ChangeVisibility,
            MixedClipActions::CopyName,
        ]
    }

    /// The actions offered on a selected clip, before ordering: a local clip that is not linked
    /// to a hosted one can also be uploaded, when the API is enabled.
    pub open spec fn offered(selected: SelectedClip, api_enabled: bool) -> Seq<MixedClipActions> {
        match selected {
            SelectedClip::Both(_, _) => Self::both_spec(),
            SelectedClip::Local(clip) => if clip.uploaded_at is None && clip.uploaded_id is None
                && api_enabled {
                Self::local_spec().push(MixedClipActions::Upload)
            } else {
                Self::local_spec()
            },
            SelectedClip::Hosted(_) => Self::hosted_spec(),
        }
    }

    /// The actions available on the selected clip, in declaration order, with `api_enabled`
    /// whether the API is enabled in the settings.
    pub fn get_available_actions(selected_clip: &SelectedClip, api_enabled: bool) -> (v: Vec<Self>)
        ensures
            forall|a: int, b: int| 0 <= a < b < v@.len() ==> (#[trigger] v@[a]).rank() < (#[trigger] v@[b]).rank(),
            forall|x: MixedClipActions| #[trigger]
                v@.contains(x) <==> Self::offered(*selected_clip, api_enabled).contains(x),
    {
        let items = match selected_clip {
            SelectedClip::Both(_, _) => Self::get_both(),
            SelectedClip::Local(clip) => {
                let mut actions = Self::get_local();
                if clip.uploaded_at.is_none() && clip.uploaded_id.is_none() && api_enabled {
                    actions.push(MixedClipActions::Upload);
                }
                actions
            },
            SelectedClip::Hosted(_) => Self::get_hosted(),
        };
        sort_actions(&items)
    }
}

/// The actions of `items`, each once, in declaration order.
fn sort_actions(items: &Vec<MixedClipActions>) -> (v: Vec<MixedClipActions>)
    ensures
        forall|a: int, b: int| 0 <= a < b < v@.len() ==> (#[trigger] v@[a]).rank() < (#[trigger] v@[b]).rank(),
        forall|x: MixedClipActions| #[trigger] v@.contains(x) <==> items@.contains(x),
{
    let mut v: Vec<MixedClipActions> = Vec::new();
    let mut i: usize = 0;
    while i < items.len()
        invariant
            i <= items@.len(),
            forall|a: int, b: int| 0 <= a < b < v@.len() ==> (#[trigger] v@[a]).rank() < (#[trigger] v@[b]).rank(),
            forall|x: MixedClipActions| #[trigger]
                v@.contains(x) <==> items@.subrange(0, i as int).contains(x),
        decreases items@.len() - i,
    {
        let x = items[i];
        let rx = x.rank_exec();
        let mut p: usize = 0;
        loop
            invariant
                p <= v@.len(),
                forall|q: int| 0 <= q < p ==> (#[trigger] v@[q]).rank() < rx,
            ensures
                p <= v@.len(),
                forall|q: int| 0 <= q < p ==> (#[trigger] v@[q]).rank() < rx,
                p < v@.len() ==> v@[p as int].rank() >= rx,
            decreases v@.len() - p,
        {
            if p == v.len() {
                break;
            }
            if v[p].rank_exec() >= rx {
                break;
            }
            p = p + 1;
        }
        let ghost before = v@;
        let ghost pre = items@.subrange(0, i as int);
        let ghost next = items@.subrange(0, i + 1);
        assert(next =~= pre.push(x));
        if p < v.len() && v[p] == x {
            assert forall|y: MixedClipActions| #[trigger] v@.contains(y) <==> next.contains(y) by {
                if next.contains(y) {
                    let k = choose|k: int| 0 <= k < next.len() && next[k] == y;
                    if k < pre.len() {
                        assert(pre[k] == y);
                    }
                }
                if pre.contains(y) {
                    let k = choose|k: int| 0 <= k < pre.len() && pre[k] == y;
                    assert(next[k] == y);
                }
            }
        } else {
            v.insert(p, x);
            proof {
                let o = before;
                let o2 = v@;
                assert(o2 =~= o.insert(p as int, x));
                assert forall|a: int, b: int| 0 <= a < b < o2.len() implies (#[trigger] o2[a]).rank() < (#[trigger] o2[b]).rank() by {
                    if b < p {
                        assert(o2[a] == o[a] && o2[b] == o[b]);
                    } else if b == p {
                        assert(o2[a] == o[a]);
                    } else if a < p {
                        assert(o2[a] == o[a] && o2[b] == o[b - 1]);
                    } else if a == p {
                        assert(o2[b] == o[b - 1]);
                        if p < o.len() {
                            assert(o[p as int].rank() != rx) by {
                                if o[p as int].rank() == rx {
                                    assert(o[p as int] == x);
                                }
                            }
                            if b - 1 > p {
                                assert(o[p as int].rank() < o[b - 1].rank());
                            }
                        }
                    } else {
                        assert(o2[a] == o[a - 1] && o2[b] == o[b - 1]);
                    }
                }
                assert forall|y: MixedClipActions| #[trigger] o2.contains(y) <==> next.contains(y) by {
                    if o2.contains(y) {
                        let k = choose|k: int| 0 <= k < o2.len() && o2[k] == y;
                        if k < p {
                            assert(o[k] == y);
                        } else if k > p {
                            assert(o[k - 1] == y);
                        } else {
                            assert(next[i as int] == y);
                        }
                    }
                    if o.contains(y) {
                        let k = choose|k: int| 0 <= k < o.len() && o[k] == y;
                        if k < p {
                            assert(o2[k] == y);
                        } else {
                            assert(o2[k + 1] == y);
                        }
                    }
                    if next.contains(y) {
                        let k = choose|k: int| 0 <= k < next.len() && next[k] == y;
                        if k < pre.len() {
                            assert(pre[k] == y);
                        } else {
                            assert(o2[p as int] == y);
                        }
                    }
                    if pre.contains(y) {
                        let k = choose|k: int| 0 <= k < pre.len() && pre[k] == y;
                        assert(next[k] == y);
                    }
                }
            }
        }
        i = i + 1;
    }
    assert(items@.subrange(0, items@.len() as int) =~= items@);
    v
}

} // verus!

verus! {

/// What each kind of clip offers: a local clip can be trimmed, liked, copied by path and opened
/// in its folder, but its visibility cannot change, and it can be uploaded exactly when it is
/// not linked to a hosted clip and the API is enabled; a hosted clip's visibility can change,
/// and it cannot be trimmed, liked, uploaded or opened as a file; a clip that is both can only
/// be deleted, renamed, retagged, given a game or have its name copied.
pub proof fn law_actions_by_kind(c: LocalClip, h: HostedClip, api_enabled: bool)
    ensures
        ({
            let l = MixedClipActions::offered(SelectedClip::Local(c), api_enabled);
            &&& l.contains(MixedClipActions::Trim)
            &&& l.contains(MixedClipActions::Like)
            &&& l.contains(MixedClipActions::CopyPath)
            &&& l.contains(MixedClipActions::OpenPath)
            &&& l.contains(MixedClipActions::View)
            &&& l.contains(MixedClipActions::Delete)
            &&& !l.contains(MixedClipActions::ChangeVisibility)
            &&& (l.contains(MixedClipActions::Upload) <==> (c.uploaded_at is None && c.uploaded_id is None
                && api_enabled))
        }),
        ({
            let o = MixedClipActions::offered(SelectedClip::Hosted(h), api_enabled);
            &&& o.contains(MixedClipActions::ChangeVisibility)
            &&& o.contains(MixedClipActions::View)
            &&& o.contains(MixedClipActions::Delete)
            &&& !o.contains(MixedClipActions::Trim)
            &&& !o.contains(MixedClipActions::Like)
            &&& !o.contains(MixedClipActions::Upload)
            &&& !o.contains(MixedClipActions::CopyPath)
            &&& !o.contains(MixedClipActions::OpenPath)
        }),
        forall|x: MixedClipActions|
            #[trigger] MixedClipActions::offered(SelectedClip::Both(c, h), api_enabled).contains(x) <==> (x
                == MixedClipActions::Delete || x == MixedClipActions::ChangeTag || x
                == MixedClipActions::ChangeName || x == MixedClipActions::ChangeGame || x
                == MixedClipActions::CopyName),
{
    let base = MixedClipActions::local_spec();
    let l = MixedClipActions::offered(SelectedClip::Local(c), api_enabled);
    assert(base[5] == MixedClipActions::Trim && base[0] == MixedClipActions::Like);
    assert(base[7] == MixedClipActions::CopyPath && base[9] == MixedClipActions::OpenPath);
    assert(base[1] == MixedClipActions::View && base[2] == MixedClipActions::Delete);
    if c.uploaded_at is None && c.uploaded_id is None && api_enabled {
        assert(l == base.push(MixedClipActions::Upload));
        assert(l[5] == MixedClipActions::Trim && l[0] == MixedClipActions::Like);
        assert(l[7] == MixedClipActions::CopyPath && l[9] == MixedClipActions::OpenPath);
        assert(l[1] == MixedClipActions::View && l[2] == MixedClipActions::Delete);
        assert(l[10] == MixedClipActions::Upload);
    } else {
        assert(l == base);
    }
    assert(!l.contains(MixedClipActions::ChangeVisibility)) by {
        if l.contains(MixedClipActions::ChangeVisibility) {
            let k = choose|k: int| 0 <= k < l.len() && l[k] == MixedClipActions::ChangeVisibility;
            assert(l[k].rank() == 10);
        }
    }
    if !(c.uploaded_at is None && c.uploaded_id is None && api_enabled) {
        if l.contains(MixedClipActions::Upload) {
            let k = choose|k: int| 0 <= k < l.len() && l[k] == MixedClipActions::Upload;
            assert(l[k].rank() == 4);
        }
    }
    let o = MixedClipActions::offered(SelectedClip::Hosted(h), api_enabled);
    assert(o[5] == MixedClipActions::ChangeVisibility && o[0] == MixedClipActions::View);
    assert(o[1] == MixedClipActions::Delete);
    assert forall|x: MixedClipActions| #[trigger] o.contains(x) implies x != MixedClipActions::Trim
        && x != MixedClipActions::Like && x != MixedClipActions::Upload && x != MixedClipActions::CopyPath
        && x != MixedClipActions::OpenPath by {
        let k = choose|k: int| 0 <= k < o.len() && o[k] == x;
        assert(0 <= k < 7);
    }
    let b = MixedClipActions::offered(SelectedClip::Both(c, h), api_enabled);
    assert forall|x: MixedClipActions| #[trigger] b.contains(x) <==> (x == MixedClipActions::Delete || x
        == MixedClipActions::ChangeTag || x == MixedClipActions::ChangeName || x
        == MixedClipActions::ChangeGame || x == MixedClipActions::CopyName) by {
        if b.contains(x) {
            let k = choose|k: int| 0 <= k < b.len() && b[k] == x;
            assert(0 <= k < 5);
        }
        if x == MixedClipActions::Delete {
            assert(b[0] == x);
        }
        if x == MixedClipActions::ChangeTag {
            assert(b[1] == x);
        }
        if x == MixedClipActions::ChangeName {
            assert(b[2] == x);
        }
        if x == MixedClipActions::ChangeGame {
            assert(b[3] == x);
        }
        if x == MixedClipActions::CopyName {
            assert(b[4] == x);
        }
    }
}

} // verus!

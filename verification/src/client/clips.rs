//! The request that changes fields of a hosted clip.
use vstd::prelude::*;
use crate::error::{validation, WayclipError};
use crate::models::clips::games::ClipsGames;
use crate::models::clips::hosted::{ClipVisibility, PatchClipsClipIdRequest};
use crate::models::clips::local::tags_valid;
use crate::models::clips::tags::{ClipsClipTagRequest, ClipsTag};
use crate::models::nutype::{clip_name_ok, ClipNameSanitised, TagNameSanitised};
use crate::text::trim;

verus! {

/// A field of a hosted clip to change, with its new value.
#[derive(Debug, Clone)]
pub enum PatchClipField {
    Visibility(ClipVisibility),
    Name(String),
    Tags(Vec<ClipsTag>),
    Game(Option<ClipsGames>),
}

/// Which field a change is to.
pub open spec fn field_kind(f: PatchClipField) -> int {
    match f {
        PatchClipField::Visibility(_) => 0,
        PatchClipField::Name(_) => 1,
        PatchClipField::Tags(_) => 2,
        PatchClipField::Game(_) => 3,
    }
}

/// Whether the changes are to distinct fields.
pub open spec fn distinct_fields(fs: Seq<PatchClipField>) -> bool {
    forall|a: int, b: int|
        0 <= a < b < fs.len() ==> field_kind(#[trigger] fs[a]) != field_kind(#[trigger] fs[b])
}

/// The change to the field of kind `k`, if any.
pub open spec fn change_of(fs: Seq<PatchClipField>, k: int) -> Option<PatchClipField> {
    if exists|i: int| 0 <= i < fs.len() && field_kind(#[trigger] fs[i]) == k {
        Some(fs[choose|i: int| 0 <= i < fs.len() && field_kind(#[trigger] fs[i]) == k])
    } else {
        None
    }
}

/// Whether the changes pass validation: a changed name is a valid clip name and changed tags
/// have valid names.
pub open spec fn changes_valid(fs: Seq<PatchClipField>) -> bool {
    &&& (change_of(fs, 1) matches Some(PatchClipField::Name(n)) ==> clip_name_ok(trim(n@)))
    &&& (change_of(fs, 2) matches Some(PatchClipField::Tags(t)) ==> tags_valid(t@))
}

proof fn lemma_change_of(fs: Seq<PatchClipField>, j: int)
    requires
        distinct_fields(fs),
        0 <= j < fs.len(),
    ensures
        change_of(fs, field_kind(fs[j])) == Some(fs[j]),
{
    let k = field_kind(fs[j]);
    assert(exists|i: int| 0 <= i < fs.len() && field_kind(#[trigger] fs[i]) == k);
    let c = choose|i: int| 0 <= i < fs.len() && field_kind(#[trigger] fs[i]) == k;
    if c < j {
        assert(field_kind(fs[c]) != field_kind(fs[j]));
    } else if c > j {
        assert(field_kind(fs[j]) != field_kind(fs[c]));
    }
}

fn kind_exec(f: &PatchClipField) -> (k: u8)
    ensures
        k == field_kind(*f),
{
    match f {
        PatchClipField::Visibility(_) => 0,
        PatchClipField::Name(_) => 1,
        PatchClipField::Tags(_) => 2,
        PatchClipField::Game(_) => 3,
    }
}

impl PatchClipsClipIdRequest {
    /// The patch request for the changes `new_values`, which must be at least one and to
    /// distinct fields; names are validated. The comment visibility is never changed.
    pub fn from_fields(new_values: Vec<PatchClipField>) -> (r: Result<Self, WayclipError>)
        ensures
            (new_values@.len() == 0 || !distinct_fields(new_values@)) ==> (r matches Err(
                WayclipError::Validation(m),
            ) && m@ == "Invalid new_values parameter"@),
            (new_values@.len() > 0 && distinct_fields(new_values@) && !changes_valid(new_values@))
                ==> r matches Err(WayclipError::Validation(_)),
            (new_values@.len() > 0 && distinct_fields(new_values@) && changes_valid(new_values@))
                ==> (r matches Ok(p) && {
                &&& p.comment_visibility is None
                &&& (match change_of(new_values@, 0) {
                    Some(PatchClipField::Visibility(v)) => p.clip_visibility == Some(v),
                    _ => p.clip_visibility is None,
                })
                &&& (match change_of(new_values@, 3) {
                    Some(PatchClipField::Game(g)) => p.detected_game == Some(g),
                    _ => p.detected_game is None,
                })
                &&& (match change_of(new_values@, 1) {
                    Some(PatchClipField::Name(n)) => p.name matches Some(x) && x.view() == trim(n@),
                    _ => p.name is None,
                })
                &&& (match change_of(new_values@, 2) {
                    Some(PatchClipField::Tags(t)) => p.tags matches Some(ts) && ts@.len() == t@.len()
                        && forall|i: int|
                        0 <= i < ts@.len() ==> Some((#[trigger] ts@[i]).name.view())
                            == TagNameSanitised::try_new_spec(t@[i].name@) && ts@[i].color
                            == t@[i].color,
                    _ => p.tags is None,
                })
            }),
    {
        let n = new_values.len();
        if n == 0 {
            return Err(validation("Invalid new_values parameter"));
        }
        let mut a: usize = 0;
        while a < n
            invariant
                n == new_values@.len(),
                a <= n,
                forall|x: int, y: int|
                    0 <= x < a && x < y < n ==> field_kind(#[trigger] new_values@[x]) != field_kind(
                        #[trigger] new_values@[y],
                    ),
            decreases n - a,
        {
            let mut b: usize = a + 1;
            while b < n
                invariant
                    n == new_values@.len(),
                    a < n,
                    a + 1 <= b <= n,
                    forall|x: int, y: int|
                        0 <= x < a && x < y < n ==> field_kind(#[trigger] new_values@[x])
                            != field_kind(#[trigger] new_values@[y]),
                    forall|y: int| a < y < b ==> field_kind(new_values@[a as int]) != field_kind(
                        #[trigger] new_values@[y],
                    ),
                decreases n - b,
            {
                if kind_exec(&new_values[a]) == kind_exec(&new_values[b]) {
                    return Err(validation("Invalid new_values parameter"));
                }
                b = b + 1;
            }
            a = a + 1;
        }
        let ghost fs = new_values@;
        let mut name: Option<String> = None;
        let mut tags: Option<Vec<ClipsTag>> = None;
        let mut game: Option<Option<ClipsGames>> = None;
        let mut visibility: Option<ClipVisibility> = None;
        let mut pending = new_values;
        let mut i: usize = 0;
        assert(fs.skip(0) =~= fs);
        while i < n
            invariant
                n == fs.len(),
                fs == new_values@,
                i <= n,
                distinct_fields(fs),
                pending@ == fs.skip(i as int),
                (exists|j: int| 0 <= j < i && field_kind(#[trigger] fs[j]) == 0) == visibility is Some,
                (exists|j: int| 0 <= j < i && field_kind(#[trigger] fs[j]) == 1) == name is Some,
                (exists|j: int| 0 <= j < i && field_kind(#[trigger] fs[j]) == 2) == tags is Some,
                (exists|j: int| 0 <= j < i && field_kind(#[trigger] fs[j]) == 3) == game is Some,
                forall|j: int|
                    0 <= j < i ==> match #[trigger] fs[j] {
                        PatchClipField::Visibility(v) => visibility == Some(v),
                        PatchClipField::Name(x) => name == Some(x),
                        PatchClipField::Tags(t) => tags == Some(t),
                        PatchClipField::Game(g) => game == Some(g),
                    },
            decreases n - i,
        {
            let f = pending.remove(0);
            assert(fs.skip(i as int)[0] == fs[i as int]);
            assert(fs.skip(i as int).remove(0) =~= fs.skip(i + 1));
            match f {
                PatchClipField::Name(x) => name = Some(x),
                PatchClipField::Tags(t) => tags = Some(t),
                PatchClipField::Visibility(v) => visibility = Some(v),
                PatchClipField::Game(g) => game = Some(g),
            }
            i = i + 1;
        }
        let name_checked = match name {
            Some(x) => match ClipNameSanitised::try_new(x.as_str()) {
                Ok(v) => Some(v),
                Err(e) => return Err(e),
            },
            None => None,
        };
        let tags_checked = match tags {
            Some(t) => {
                proof {
                    let w = choose|w: int| 0 <= w < fs.len() && field_kind(#[trigger] fs[w]) == 2;
                    lemma_change_of(fs, w);
                }
                let mut out: Vec<ClipsClipTagRequest> = Vec::new();
                let mut j: usize = 0;
                while j < t.len()
                    invariant
                        fs == new_values@,
                        fs.len() > 0,
                        distinct_fields(fs),
                        change_of(fs, 2) == Some(PatchClipField::Tags(t)),
                        j <= t@.len(),
                        out@.len() == j,
                        forall|q: int| 0 <= q < j ==> TagNameSanitised::try_new_spec(#[trigger] t@[q].name@) is Some,
                        forall|q: int|
                            0 <= q < j ==> Some((#[trigger] out@[q]).name.view())
                                == TagNameSanitised::try_new_spec(t@[q].name@) && out@[q].color
                                == t@[q].color,
                    decreases t@.len() - j,
                {
                    match TagNameSanitised::try_new(t[j].name.as_str()) {
                        Ok(nm) => out.push(ClipsClipTagRequest { name: nm, color: t[j].color }),
                        Err(e) => {
                            assert(!tags_valid(t@));
                            return Err(e);
                        },
                    }
                    j = j + 1;
                }
                Some(out)
            },
            None => None,
        };
        Ok(PatchClipsClipIdRequest {
            name: name_checked,
            tags: tags_checked,
            detected_game: game,
            clip_visibility: visibility,
            comment_visibility: None,
        })
    }
}

} // verus!

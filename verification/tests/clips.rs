use wayclip_core::app::clips::actions::MixedClipActions;
use wayclip_core::app::clips::ffmpeg::Ffmpeg;
use wayclip_core::app::clips::info::{HostedClipInfo, LocalClipInfo, SelectedClipInfo};
use wayclip_core::app::clips::query::ClipsQuery;
use wayclip_core::app::clips::unified::unify_clips;
use wayclip_core::error::WayclipError;
use wayclip_core::models::clips::games::ClipsGames;
use wayclip_core::models::clips::hosted::{
    ClipVisibility, ClipsNewMetadata, ClipsStatusType, CommentVisibility, HostedClip,
};
use wayclip_core::models::clips::local::LocalClip;
use wayclip_core::models::clips::tags::{
    ClipsClipTagColor, ClipsClipTagRequest, ClipsClipTagResponse, ClipsTag, TerminalColor,
};
use wayclip_core::models::clips::unified::{SelectedClip, SelectedClipType, UnifiedClipType};
use wayclip_core::settings::output::{Age, Prune, VideoFormat};
use wayclip_core::settings::recording::{Bitrate, Fps, Resolution};

fn local(name: &str, created_at: i64, uploaded_id: Option<&str>) -> LocalClip {
    LocalClip {
        name: name.to_string(),
        video_path: format!("/v/{name}.mkv"),
        metadata_path: format!("/m/{name}.json"),
        preview_path: format!("/p/{name}.preview.mkv"),
        created_at,
        modified_at: None,
        uploaded_at: uploaded_id.map(|_| created_at + 10),
        uploaded_id: uploaded_id.map(String::from),
        clip_tags: vec![],
        liked: false,
        clip_start_ms: 0,
        clip_end_ms: 30_000,
        file_duration_ms: 30_000,
        file_size_mb: 10,
        video_format: VideoFormat::MKV,
        bitrate_kbps: Bitrate(15000),
        resolution: Resolution { width: 1920, height: 1080 },
        fps: Fps(60),
        detected_game: Some(ClipsGames::Rust),
    }
}

fn hosted(id: &str, name: &str, ready: bool) -> HostedClip {
    let status = if ready { ClipsStatusType::Ready } else { ClipsStatusType::Processing };
    HostedClip {
        clip_id: id.to_string(),
        clip_name: name.to_string(),
        user_id: "u".to_string(),
        duration_s: 30,
        tags: vec![],
        resolution: None,
        bitrate_kbps: None,
        fps: None,
        clip_status: ClipsStatusType::Ready,
        preview_status: status,
        thumbnail_status: ClipsStatusType::Ready,
        file_size_mb: 12,
        uploaded_at: 5_000,
        detected_game: None,
        location: "eu".to_string(),
        clip_visibility: ClipVisibility::Unlisted,
        comment_visibility: CommentVisibility::Everyone,
        reactions: vec![],
        reaction_count: 0,
        view_count: 0,
    }
}

#[test]
fn action_lists() {
    assert_eq!(MixedClipActions::get_both().len(), 5);
    assert_eq!(MixedClipActions::get_local()[0], MixedClipActions::Like);
    assert_eq!(MixedClipActions::get_hosted().len(), 7);
    assert_eq!(MixedClipActions::ChangeVisibility.to_string(), "Change Visibility");
}

#[test]
fn available_actions_are_ordered() {
    let both = SelectedClip::Both(local("a", 1, Some("x")), hosted("x", "a", true));
    assert_eq!(
        MixedClipActions::get_available_actions(&both, true),
        vec![
            MixedClipActions::CopyName,
            MixedClipActions::ChangeName,
            MixedClipActions::ChangeTag,
            MixedClipActions::ChangeGame,
            MixedClipActions::Delete
        ]
    );
    let unlinked = SelectedClip::Local(local("b", 1, None));
    let with_api = MixedClipActions::get_available_actions(&unlinked, true);
    assert_eq!(with_api.len(), 11);
    assert_eq!(with_api[4], MixedClipActions::Upload);
    let without_api = MixedClipActions::get_available_actions(&unlinked, false);
    assert!(!without_api.contains(&MixedClipActions::Upload));
    let linked = SelectedClip::Local(local("c", 1, Some("y")));
    assert!(!MixedClipActions::get_available_actions(&linked, true).contains(&MixedClipActions::Upload));
    let h = SelectedClip::Hosted(hosted("z", "z", true));
    assert_eq!(
        MixedClipActions::get_available_actions(&h, true),
        vec![
            MixedClipActions::View,
            MixedClipActions::CopyName,
            MixedClipActions::ChangeName,
            MixedClipActions::ChangeTag,
            MixedClipActions::ChangeGame,
            MixedClipActions::ChangeVisibility,
            MixedClipActions::Delete
        ]
    );
}

#[test]
fn unified_clip_types() {
    assert_eq!(UnifiedClipType::Both.to_string(), "Local & Hosted");
    assert_eq!(UnifiedClipType::Neither.to_string(), "Not Available");
    assert_eq!(SelectedClipType::from_unified_type(UnifiedClipType::LocalOnly), SelectedClipType::Local);
    assert_eq!(SelectedClipType::from_unified_type(UnifiedClipType::HostedOnly), SelectedClipType::Hosted);
}

#[test]
fn unifying_links_local_and_hosted_clips() {
    let locals = vec![local("a", 100, Some("h1")), local("b", 200, None), local("c", 300, Some("gone"))];
    let hosts = vec![hosted("h2", "remote", true), hosted("h1", "a-remote", true)];
    let (unified, stale) = unify_clips(locals, hosts);
    assert_eq!(unified.len(), 4);
    assert_eq!(unified[0].name, "a");
    assert_eq!(unified[0].hosted.as_ref().unwrap().clip_id, "h1");
    assert_eq!(UnifiedClipType::from_unified(&unified[0]), UnifiedClipType::Both);
    assert!(unified[1].hosted.is_none());
    assert_eq!(UnifiedClipType::from_unified(&unified[1]), UnifiedClipType::LocalOnly);
    assert_eq!(unified[2].local.as_ref().unwrap().uploaded_id.as_deref(), Some("gone"));
    assert_eq!(unified[3].name, "remote");
    assert_eq!(unified[3].created_at, 5_000);
    assert_eq!(UnifiedClipType::from_unified(&unified[3]), UnifiedClipType::HostedOnly);
    assert_eq!(stale, vec![2]);
}

#[test]
fn unifying_skips_duplicate_hosted_ids() {
    let locals = vec![local("a", 1, Some("h"))];
    let hosts = vec![hosted("h", "first", true), hosted("h", "second", true)];
    let (unified, stale) = unify_clips(locals, hosts);
    assert_eq!(unified.len(), 1);
    assert_eq!(unified[0].hosted.as_ref().unwrap().clip_name, "first");
    assert!(stale.is_empty());
}

#[test]
fn querying_local_clips() {
    let scanned = vec![
        (local("alpha", 1, None), "alpha.mkv".to_string()),
        (local("beta", 2, Some("id-b")), "beta.mkv".to_string()),
    ];
    let found = ClipsQuery::query_local_clips(scanned.clone(), "beta.mkv", false).unwrap();
    assert_eq!(found.len(), 1);
    assert_eq!(found[0].name, "beta");
    let by_regex = ClipsQuery::query_local_clips(scanned.clone(), "^a", true).unwrap();
    assert_eq!(by_regex.len(), 1);
    assert_eq!(by_regex[0].name, "alpha");
    assert!(matches!(
        ClipsQuery::query_local_clips(scanned.clone(), "(", true),
        Err(WayclipError::Regex(_))
    ));
    assert!(matches!(ClipsQuery::query_local_clips(vec![], "(", true), Err(WayclipError::Regex(_))));
    assert_eq!(ClipsQuery::get_local_clip(scanned.clone(), "id-b").unwrap().name, "beta");
    assert!(matches!(ClipsQuery::get_local_clip(scanned, "zzz"), Err(WayclipError::NotFound(_))));
}

#[test]
fn tags_and_names_are_unique() {
    let mut a = local("one", 1, None);
    a.add_local_tag("fun".to_string(), ClipsClipTagColor::Red);
    a.add_local_tag("fps".to_string(), ClipsClipTagColor::Blue);
    let mut b = local("one", 2, None);
    b.add_local_tag("fps".to_string(), ClipsClipTagColor::Red);
    b.add_local_tag("win".to_string(), ClipsClipTagColor::Cyan);
    let clips = vec![a, b];
    assert_eq!(ClipsQuery::get_all_tags(&clips), vec!["fun", "fps", "win"]);
    assert_eq!(ClipsQuery::get_all_names(&clips), vec!["one"]);
}

#[test]
fn merging_hosted_results() {
    let merged = ClipsQuery::merge_hosted_results(
        vec![hosted("1", "x", true)],
        vec![hosted("1", "y", true), hosted("2", "z", true), hosted("2", "w", true)],
    );
    let ids: Vec<&str> = merged.iter().map(|c| c.clip_id.as_str()).collect();
    assert_eq!(ids, vec!["1", "2"]);
    assert_eq!(merged[1].clip_name, "z");
    assert_eq!(ClipsQuery::next_page(0, 3, 100), Some(1));
    assert_eq!(ClipsQuery::next_page(2, 3, 100), None);
    assert_eq!(ClipsQuery::next_page(0, 3, 0), None);
}

#[test]
fn editing_local_metadata() {
    let mut c = local("x", 1, Some("h"));
    c.set_name("y".to_string());
    assert_eq!(c.name, "y");
    c.toggle_local_like();
    assert!(c.liked);
    c.remove_hosted_connection();
    assert!(c.uploaded_id.is_none() && c.uploaded_at.is_none());
    c.add_local_tag("a".to_string(), ClipsClipTagColor::Red);
    c.add_local_tag("b".to_string(), ClipsClipTagColor::Red);
    c.add_local_tag("a".to_string(), ClipsClipTagColor::Blue);
    c.remove_local_tag("a");
    assert_eq!(c.clip_tags.len(), 1);
    assert_eq!(c.clip_tags[0].name, "b");
    c.apply_trim(5_000, 3);
    assert_eq!((c.clip_start_ms, c.clip_end_ms, c.file_duration_ms, c.file_size_mb), (0, 5_000, 5_000, 3));
    c.relocate("cut".to_string(), "/v/cut.mkv".to_string(), "/meta", "/prev/");
    assert_eq!(c.metadata_path, "/meta/cut.json");
    assert_eq!(c.preview_path, "/prev/cut.preview.mkv");
    c.mark_uploaded(99, "new".to_string());
    assert_eq!(c.uploaded_id.as_deref(), Some("new"));
}

#[test]
fn pruning_plans() {
    let mut clips = vec![local("old", 100, None), local("new", 300, None), local("mid", 200, None)];
    clips[1].file_size_mb = 50;
    clips[2].file_duration_ms = 120_000;
    assert!(LocalClip::prune_plan(&Prune::Disabled, &clips, 1_000).is_empty());
    assert_eq!(LocalClip::prune_plan(&Prune::Clips(1), &clips, 1_000), vec![0, 2]);
    assert!(LocalClip::prune_plan(&Prune::Clips(0), &clips, 1_000).is_empty());
    assert_eq!(LocalClip::prune_plan(&Prune::SizeMb(60), &clips, 1_000), vec![0]);
    assert_eq!(LocalClip::prune_plan(&Prune::SizeMb(55), &clips, 1_000), vec![0, 2]);
    assert_eq!(LocalClip::prune_plan(&Prune::SizeMb(10), &clips, 1_000), vec![0, 2, 1]);
    assert_eq!(LocalClip::prune_plan(&Prune::DurationS(60), &clips, 1_000), vec![2]);
    let hour = Age { months: 0, weeks: 0, days: 0, hours: 1 };
    assert_eq!(LocalClip::prune_plan(&Prune::Age(hour), &clips, 3_600_250), vec![0, 2]);
    assert!(LocalClip::prune_plan(&Prune::Age(hour), &clips, 3_600_100).is_empty());
}

#[test]
fn ffmpeg_trim_commands() {
    assert_eq!(Ffmpeg::seconds(12_345), "12.345");
    assert_eq!(Ffmpeg::seconds(5), "0.005");
    let args = Ffmpeg::trim_command("/in.mkv", "/out.mkv", 1_500, 4_000).unwrap();
    assert_eq!(args, vec!["-y", "-ss", "1.500", "-i", "/in.mkv", "-t", "2.500", "-c", "copy", "/out.mkv"]);
    assert!(matches!(Ffmpeg::trim_command("/a", "/b", 5, 5), Err(WayclipError::Validation(_))));
    assert_eq!(Ffmpeg::overwrite_temp_path("/v", "clip", "mkv"), "/v/clip_trim_tmp.mkv");
}

#[test]
fn clip_details() {
    let mut l = local("n", 7, Some("h"));
    l.add_local_tag("t".to_string(), ClipsClipTagColor::Magenta);
    let li = LocalClipInfo::from_local(&l, "n.mkv");
    assert_eq!(li.tags[0].input, "Magenta");
    assert_eq!(li.tags[0].fgcolor, Some(TerminalColor::Magenta));
    assert_eq!(li.uploaded, Some(17));
    let ready = HostedClipInfo::from_hosted(&hosted("abc", "n", true));
    assert_eq!(ready.hosted_link.as_deref(), Some("https://wayclip.com/clips/abc"));
    assert_eq!(ready.hosted_status, "Unlisted");
    let pending = HostedClipInfo::from_hosted(&hosted("abc", "n", false));
    assert_eq!(pending.hosted_status, "Pending");
    assert!(pending.hosted_link.is_none());
    let only_hosted = SelectedClipInfo::from_selected(&SelectedClip::Hosted(hosted("q", "n", true)), "");
    assert!(only_hosted.local.file_name.is_empty());
    assert_eq!(only_hosted.hosted.hosted_id, "q");
}

#[test]
fn tags_and_colors() {
    assert_eq!(ClipsClipTagColor::from_str("CYAN"), Ok(ClipsClipTagColor::Cyan));
    assert_eq!(ClipsClipTagColor::from_str("pink"), Err("Invalid color".to_string()));
    let g = ClipsClipTagColor::Grey.get_colored_string();
    assert_eq!((g.input.as_str(), g.fgcolor), ("Grey", None));
    let r = ClipsClipTagColor::Reset.get_colored_string();
    assert_eq!((r.input.as_str(), r.fgcolor), ("Normal", None));
    let d = ClipsClipTagResponse::default();
    assert!(d.name.is_empty() && d.color == ClipsClipTagColor::Reset);
    let req = ClipsClipTagRequest::try_from_response(ClipsTag {
        name: "  speed_run ".to_string(),
        color: ClipsClipTagColor::Green,
    })
    .unwrap();
    let back = ClipsClipTagResponse::from_request(req);
    assert_eq!(back.name, "speed_run");
    assert!(ClipsClipTagRequest::try_from_response(ClipsTag {
        name: "has space".to_string(),
        color: ClipsClipTagColor::Green,
    })
    .is_err());
}

#[test]
fn upload_metadata_validation() {
    let mut l = local("  Good Clip ", 1, None);
    l.add_local_tag("héros".to_string(), ClipsClipTagColor::Blue);
    let m = ClipsNewMetadata::try_from_local(l).unwrap();
    assert_eq!(m.name.into_inner(), "Good Clip");
    assert_eq!(m.duration_s.into_inner(), 30);
    assert_eq!(m.resolution.unwrap().into_inner(), "1920x1080");
    assert_eq!(m.fps.unwrap().into_inner(), 60);
    assert_eq!(m.clip_visibility, ClipVisibility::Public);
    let mut short = local("x", 1, None);
    short.file_duration_ms = 999;
    assert!(matches!(ClipsNewMetadata::try_from_local(short), Err(WayclipError::Validation(_))));
    assert!(matches!(ClipsNewMetadata::try_from_local(local("ab", 1, None)), Err(WayclipError::Validation(_))));
    assert!(matches!(ClipsNewMetadata::try_from_local(local("bad/name", 1, None)), Err(WayclipError::Validation(_))));
}

#[test]
fn remove_after_add_restores_tags() {
    let mut c = local("x", 1, None);
    c.add_local_tag("keep".to_string(), ClipsClipTagColor::Green);
    let before: Vec<String> = c.clip_tags.iter().map(|t| t.name.clone()).collect();
    c.add_local_tag("new".to_string(), ClipsClipTagColor::Blue);
    c.remove_local_tag("new");
    let after: Vec<String> = c.clip_tags.iter().map(|t| t.name.clone()).collect();
    assert_eq!(before, after);
    c.toggle_local_like();
    c.toggle_local_like();
    assert!(!c.liked);
}

#[test]
fn trim_range_message() {
    match Ffmpeg::trim_command("/a", "/b", 7, 3) {
        Err(WayclipError::Validation(m)) => assert_eq!(m, "Start timestamp must be less than end timestamp"),
        other => panic!("unexpected {other:?}"),
    }
}

#[test]
fn recorded_clip_fields() {
    let c = LocalClip::recorded(
        "rec".to_string(),
        VideoFormat::MP4,
        "/v/rec.mp4".to_string(),
        "/p/rec.preview.mkv".to_string(),
        "/m/rec.json".to_string(),
        Some(ClipsGames::Rust),
        42_000,
        25_999_999,
        1_700,
        Bitrate(8000),
        Resolution { width: 1280, height: 720 },
        Fps(30),
    );
    assert_eq!(c.file_size_mb, 25);
    assert_eq!((c.clip_start_ms, c.clip_end_ms, c.file_duration_ms), (0, 42_000, 42_000));
    assert_eq!(c.created_at, 1_700);
    assert!(c.modified_at.is_none() && c.uploaded_id.is_none() && c.clip_tags.is_empty() && !c.liked);
}

#[test]
fn hosted_search_queries() {
    let (by_id, by_name) = ClipsQuery::hosted_queries("abc", false);
    let q = by_id.string_query.unwrap();
    assert_eq!(q.column, "clip_id");
    assert_eq!(q.equal.as_deref(), Some("abc"));
    assert_eq!(by_id.page_query.page_size, 100);
    let q = by_name.string_query.unwrap();
    assert_eq!(q.column, "clip_name");
    let (_, by_name) = ClipsQuery::hosted_queries("^a", true);
    let q = by_name.string_query.unwrap();
    assert_eq!(q.regex.as_deref(), Some("^a"));
    assert!(q.equal.is_none());
}

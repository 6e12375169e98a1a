use quilore::api_models::ScanLikesEvent;
use quilore::credentials::AuthCredential;
use quilore::cursored_data::IngestError;
use quilore::entities::DbEntitie;
use quilore::ingest::CursoredData;
use quilore::job::{
    end_signal, is_confirmed, jobs_for_event, jobs_to_resume, reply_pending_jobs, signalled_end,
    HandleSignal, Job, JobCheckEvent, Mission, PendingJobCheck, ReplyError,
};
use quilore::json::Json;
use quilore::like::LikedPost;
use quilore::likes_scan::{
    check_answer, conclude, digest_page, page_entities, scan_likes_timeline, scan_request, scan_user,
    tasks_to_run, ScanError, ScanProgress,
};
use quilore::load::{des_asset, des_likedpost, des_media, file_name_of, read_tweets_from_json, LoadError};
use quilore::asset::AssetType;
use quilore::media::Media;
use quilore::meta::GlobalVal;
use quilore::record::RecordId;
use quilore::scheduler::{AfterSuccess, Schedulable, Status, Work};
use quilore::table::Table;
use quilore::task::{Task, TaskKind};

fn globals() -> GlobalVal {
    GlobalVal { save_dir: Some("/save".to_string()) }
}

fn job(end_band: Vec<RecordId>) -> Job {
    let mut j = scan_likes_timeline();
    j.end_band = end_band;
    j
}

#[test]
fn scan_job_starts_pending_at_the_first_page() {
    let j = scan_likes_timeline();
    assert!(j.id.same(&RecordId::named(Table::Status, "scan_likes")));
    assert_eq!(j.mission, Mission::ScanLikes);
    assert_eq!(Mission::ScanLikes.as_str(), "scan_likes");
    assert_eq!(j.status, Status::Pending);
    assert_eq!(j.params.to_text(), r#"{"cursor":null}"#);
    assert_eq!(j.retry_count, 0);
    assert_eq!(j.max_retry_count, 3);
    assert_eq!(j.handle(), Work::ScanLikes);
    let progress = ScanProgress::from_params(&j.params);
    assert_eq!(progress.cursor, None);
    assert_eq!(progress.last_sortidx, None);
    assert_eq!(progress.count, 0);
}

#[test]
fn job_is_schedulable() {
    let j = job(Vec::new()).with_progress(Status::Running, 1);
    assert_eq!(j.status(), Status::Running);
    assert_eq!(j.retry_count(), 1);
    assert!(j.id().same(&RecordId::named(Table::Status, "scan_likes")));
    assert_eq!(j.update_status(Status::Succeeded, None).to_text(), r#"{"status":"Succeeded"}"#);
    assert_eq!(
        j.update_params(Json::parse(r#"{"cursor":"c"}"#).unwrap()).to_text(),
        r#"{"params":{"cursor":"c"}}"#
    );
}

#[test]
fn job_continues_until_the_end_is_signalled() {
    let quiet = job(Vec::new());
    assert_eq!(quiet.on_success(Some(end_signal(false))), AfterSuccess::Continue);
    assert_eq!(quiet.on_success(Some(end_signal(true))), AfterSuccess::Delete { notify: false });
    let watched = job(vec![RecordId::numbered(Table::Post, 1)]);
    assert_eq!(watched.on_success(Some(end_signal(true))), AfterSuccess::Delete { notify: true });
    assert_eq!(watched.on_success(Some(end_signal(false))), AfterSuccess::Continue);
    // a flag that is no truth value counts as false
    let odd = HandleSignal { value: Json::parse(r#"{"is_end":"yes"}"#).unwrap() };
    assert_eq!(signalled_end(&Some(odd)), Some(false));
    assert_eq!(signalled_end(&None), None);
    assert_eq!(signalled_end(&Some(HandleSignal { value: Json::object() })), None);
    assert_eq!(signalled_end(&Some(end_signal(true))), Some(true));
}

#[test]
fn pending_jobs_are_resumed_only_on_the_users_word() {
    let pending = vec![job(Vec::new())];
    let event = jobs_for_event(&pending);
    assert_eq!(event.jobs, vec![JobCheckEvent { mission: Mission::ScanLikes, user_say: None }]);
    let yes = vec![JobCheckEvent { mission: Mission::ScanLikes, user_say: Some(true) }];
    let no = vec![JobCheckEvent { mission: Mission::ScanLikes, user_say: Some(false) }];
    let silent = vec![JobCheckEvent { mission: Mission::ScanLikes, user_say: None }];
    assert!(is_confirmed(Mission::ScanLikes, &yes));
    assert!(!is_confirmed(Mission::ScanLikes, &no));
    assert!(!is_confirmed(Mission::ScanLikes, &silent));
    assert!(!is_confirmed(Mission::ScanLikes, &Vec::new()));
    // the first answer to a mission decides
    let both = vec![no[0], yes[0]];
    assert!(!is_confirmed(Mission::ScanLikes, &both));
    assert_eq!(jobs_to_resume(vec![job(Vec::new()), job(Vec::new())], &yes).len(), 2);
    assert_eq!(jobs_to_resume(vec![job(Vec::new())], &no).len(), 0);
    assert_eq!(jobs_to_resume(vec![job(Vec::new())], &Vec::new()).len(), 0);
    assert_eq!(jobs_to_resume(Vec::new(), &yes).len(), 0);
}

#[test]
fn reply_is_taken_once() {
    let mut check = PendingJobCheck::new();
    let reply = vec![JobCheckEvent { mission: Mission::ScanLikes, user_say: Some(true) }];
    assert_eq!(reply_pending_jobs(&mut check, reply.clone()), Err(ReplyError::NotWaiting));
    check.arm();
    assert_eq!(reply_pending_jobs(&mut check, reply.clone()), Ok(reply.clone()));
    assert_eq!(reply_pending_jobs(&mut check, reply.clone()), Err(ReplyError::NotWaiting));
    check.arm();
    check.clear();
    assert_eq!(reply_pending_jobs(&mut check, reply), Err(ReplyError::NotWaiting));
}

#[test]
fn scanned_user_is_the_twid_without_its_prefix() {
    let user = AuthCredential::user("ct0=c; twid=u%3D1234; auth_token=a; kdt=k".to_string()).unwrap();
    assert_eq!(scan_user(&user), Ok("1234".to_string()));
    let no_twid = AuthCredential::user("ct0=c; kdt=k".to_string()).unwrap();
    assert_eq!(scan_user(&no_twid), Err(ScanError::NoTwid));
    let guest = AuthCredential::guest("g".to_string());
    assert_eq!(scan_user(&guest), Err(ScanError::NoCookie));
    let progress = ScanProgress { cursor: Some("cc".to_string()), last_sortidx: None, count: 0 };
    let request = scan_request(&progress, &user).unwrap();
    let variables = Json::parse(&request.params.variables).unwrap();
    assert_eq!(variables.get("userId").unwrap().as_str(), Some("1234"));
    assert_eq!(variables.get("cursor").unwrap().as_str(), Some("cc"));
    assert_eq!(scan_request(&progress, &guest).err(), Some(ScanError::NoCookie));
}

#[test]
fn answers_other_than_success_fail_the_step() {
    assert_eq!(check_answer(200), Ok(()));
    assert_eq!(check_answer(429), Err(ScanError::Status(429)));
    assert_eq!(check_answer(500), Err(ScanError::Status(500)));
}

#[test]
fn progress_is_read_from_the_parameters() {
    let p = ScanProgress::from_params(
        &Json::parse(r#"{"cursor":"abc","count":12,"is_end":false,"last_sortidx":900}"#).unwrap(),
    );
    assert_eq!(p.cursor, Some("abc".to_string()));
    assert_eq!(p.count, 12);
    assert_eq!(p.last_sortidx, Some(900));
    let p = ScanProgress::from_params(&Json::parse(r#"{"cursor":5,"count":"x","last_sortidx":null}"#).unwrap());
    assert_eq!((p.cursor, p.count, p.last_sortidx), (None, 0, None));
}

fn liked(sortidx: u32, id: i64) -> LikedPost {
    let text = format!(
        r#"{{"sortidx":"{sortidx}","post":{{"rest_id":"{id}","created_at":"Wed",
            "author":{{"screen_name":"amy","name":"Amy","avatar":{{"path":"/save/avatar/amy.jpg","url":"https://a/amy.jpg"}}}},
            "content":{{"lang":"en","text":"hi","expanded_urls":["https://e.com",3]}},
            "media":[{{"type":"photo","id":"p{id}.jpg","path":"/save/media/p{id}.jpg","url":"https://a/p{id}.jpg","width":1,"height":2}},
                     {{"type":"video","id":"v{id}.mp4","path":"/save/media/v{id}.mp4","url":"https://a/v{id}.mp4","width":null,"height":null,
                       "aspect_ratio":[16,9],"thumb_path":"/save/thumb/v{id}.jpg","thumb":"https://a/v{id}.jpg","duration_millis":10}}],
            "quote":{{"rest_id":"{q}","created_at":"Tue","author":{{"screen_name":"bob","name":"Bob","avatar":{{"path":"/save/avatar/bob.jpg","url":"https://a/bob.jpg"}}}},
                     "content":{{"lang":"en","text":"quoted"}}}},
            "replies":[{{"conversation":[{{"rest_id":"{r}","created_at":"Thu","author":{{"screen_name":"cat","name":"Cat","avatar":{{"path":"/save/avatar/cat.jpg","url":"https://a/cat.jpg"}}}},
                     "content":{{"lang":"en","text":"reply"}},"media":[{{"type":"photo","id":"r.jpg","path":"/save/media/r.jpg","url":"https://a/r.jpg","width":1,"height":1}}]}}]}}],
            "card":{{"url":"https://card"}},"article":{{"id":"a","title":"t","url":"https://art"}}}}}}"#,
        q = id + 100,
        r = id + 200,
    );
    des_likedpost(&Json::parse(&text).unwrap()).expect("the export is readable")
}

#[test]
fn exported_posts_are_read_back() {
    let l = liked(31, 5);
    assert_eq!(l.sortidx, 31);
    assert_eq!(l.post.rest_id, 5);
    assert_eq!(l.post.author.id, "amy");
    assert_eq!(l.post.author.avatar.name, "amy.jpg");
    assert!(l.post.author.avatar.downloaded && l.post.author.avatar.available);
    assert_eq!(l.post.content.expanded_urls, Some(vec!["https://e.com".to_string()]));
    let media = l.post.media.as_ref().unwrap();
    assert_eq!(media.len(), 2);
    match &media[1] {
        Media::Video(v) => {
            assert_eq!(v.aspect_ratio, (16, 9));
            assert_eq!(v.thumb.name, "v5.jpg");
            assert_eq!(v.thumb.url, "https://a/v5.jpg");
            assert_eq!(v.duration_millis, 10);
            assert_eq!(v.base.width, None);
        }
        other => panic!("expected a video, got {:?}", other),
    }
    assert_eq!(l.post.quote.as_ref().unwrap().rest_id, 105);
    assert_eq!(l.post.replies.as_ref().unwrap()[0].conversation[0].0.rest_id, 205);
    assert_eq!(l.post.card.as_ref().unwrap().url, "https://card");
    assert_eq!(l.post.article.as_ref().unwrap().id, "a");
}

#[test]
fn exported_assets_know_what_could_not_be_had() {
    let gone = des_asset(
        &Json::parse(r#"{"path":"media unavailable","url":"https://a/x.jpg"}"#).unwrap(),
        AssetType::Media,
    )
    .unwrap();
    assert!(gone.downloaded && !gone.available);
    assert_eq!(gone.name, "media unavailable");
    assert!(des_asset(&Json::parse(r#"{"path":"dir/","url":"u"}"#).unwrap(), AssetType::Media).is_none());
    assert!(des_asset(&Json::parse(r#"{"path":"a/b.jpg"}"#).unwrap(), AssetType::Avatar).is_none());
    assert_eq!(file_name_of("a/b/c.txt"), Some("c.txt".to_string()));
    assert_eq!(file_name_of("c.txt"), Some("c.txt".to_string()));
    assert_eq!(file_name_of("a/.."), None);
    assert_eq!(file_name_of(""), None);
    assert!(des_media(&Json::parse(r#"{"type":"hologram"}"#).unwrap()).is_none());
    let short = des_media(
        &Json::parse(
            r#"{"type":"animated_gif","id":"g","path":"p/g.mp4","url":"u","width":1,"height":1,"aspect_ratio":[4],"thumb_path":"t/g.jpg","thumb":"tu"}"#,
        )
        .unwrap(),
    )
    .unwrap();
    assert!(matches!(short, Media::AnimatedGif(ref g) if g.aspect_ratio == (0, 0)));
}

#[test]
fn export_is_read_with_its_metadata() {
    let text = r#"{"metadata":{"item":"liked","created_at":"2023-05-10T08:00:00Z","media_folder":"/m"},
        "results":[{"sortidx":"x","post":{}},{"sortidx":"3","post":{"rest_id":"1","created_at":"c",
            "author":{"screen_name":"a","name":"A","avatar":{"path":"p/a.jpg","url":"u"}},"content":{"lang":"en","text":"t"}}}]}"#;
    let data = read_tweets_from_json(&Json::parse(text).unwrap()).unwrap();
    assert_eq!(data.metadata.item, "liked");
    assert_eq!(data.metadata.created_at, "2023-05-10T08:00:00Z");
    assert_eq!(data.metadata.proj_path, "/m");
    assert_eq!(data.results.len(), 1);
    assert_eq!(data.results[0].sortidx, 3);
    assert_eq!(
        read_tweets_from_json(&Json::parse(r#"{"results":[]}"#).unwrap()).err(),
        Some(LoadError::NoMetadata)
    );
    assert_eq!(
        read_tweets_from_json(
            &Json::parse(r#"{"metadata":{"item":"i","created_at":"c","media_folder":"f"}}"#).unwrap()
        )
        .err(),
        Some(LoadError::NoResults)
    );
}

#[test]
fn every_asset_of_a_liked_post_gets_one_task() {
    let e = liked(31, 5).into_entities(TaskKind::AssetDownload, &globals());
    assert_eq!(e.like.len(), 1);
    assert!(e.like[0].id.same(&RecordId::numbered(Table::LikedPost, 31)));
    assert_eq!(e.posts.len(), 2);
    assert!(e.posts[0].id.same(&RecordId::numbered(Table::Post, 5)) && e.posts[0].is_root);
    assert!(e.posts[1].id.same(&RecordId::numbered(Table::Post, 105)) && !e.posts[1].is_root);
    assert_eq!(e.medias.len(), 2);
    let users: Vec<String> = e.users.iter().map(|u| u.name.clone()).collect();
    assert_eq!(users, vec!["Amy", "Bob", "Cat"]);
    let assets: Vec<String> = e.assets.iter().map(|a| a.name.clone()).collect();
    assert_eq!(
        assets,
        vec!["amy.jpg", "p5.jpg", "v5.mp4", "v5.jpg", "bob.jpg", "cat.jpg", "r.jpg"]
    );
    assert_eq!(e.assets[1].path.0, "media/p5.jpg");
    assert_eq!(e.replies.len(), 1);
    assert!(e.replies[0].0.id.same(&RecordId::numbered(Table::Reply, 205)));
    assert_eq!(e.tasks.len(), e.assets.len());
    for (task, asset) in e.tasks.iter().zip(e.assets.iter()) {
        assert!(task.tar.same(&asset.id));
        assert_eq!(task.kind, TaskKind::AssetDownload);
        assert_eq!(task.status, Status::Pending);
    }
    assert!(e.tasks[3].id.same(&RecordId::named(Table::Task, "thumb-v5.jpg")));
}

#[test]
fn entities_of_a_page_are_joined_in_page_order() {
    let list = vec![liked(9, 1), liked(8, 2)];
    let e = page_entities(&list, &globals()).unwrap();
    assert_eq!(e.like.len(), 2);
    assert_eq!(e.posts.len(), 4);
    assert_eq!(e.tasks.len(), 14);
    assert!(e.like[1].id.same(&RecordId::numbered(Table::LikedPost, 8)));
    assert_eq!(page_entities(&list, &GlobalVal { save_dir: None }).err(), Some(ScanError::NoSaveDir));
    let merged = DbEntitie::merge_all(vec![DbEntitie::default(), e, DbEntitie::default()]);
    assert_eq!(merged.assets.len(), 14);
    assert!(DbEntitie::merge_all(Vec::new()).tasks.is_empty());
}

fn task(name: &str, status: Status) -> Task {
    Task {
        id: RecordId::named(Table::Task, name),
        tar: RecordId::named(Table::Asset, name),
        kind: TaskKind::AssetDownload,
        payload: None,
        status,
        result: None,
        error: None,
        retry_count: 0,
        started_at: None,
        finished_at: None,
    }
}

#[test]
fn tasks_that_succeeded_are_not_run_again() {
    let run = tasks_to_run(vec![
        task("a", Status::Pending),
        task("b", Status::Succeeded),
        task("c", Status::Failed),
        task("d", Status::Running),
    ]);
    let names: Vec<bool> = ["a", "c", "d"]
        .iter()
        .zip(run.iter())
        .map(|(n, t)| t.id.same(&RecordId::named(Table::Task, n)))
        .collect();
    assert_eq!(run.len(), 3);
    assert_eq!(names, vec![true, true, true]);
}

#[test]
fn a_step_ends_with_the_new_parameters() {
    let progress = ScanProgress { cursor: Some("c0".to_string()), last_sortidx: Some(50), count: 10 };
    let batch = CursoredData { list: vec![liked(49, 1), liked(48, 2)], next: "c1".to_string(), is_end: false };
    let step = conclude(&progress, &batch);
    assert_eq!(step.params.to_text(), r#"{"count":12,"cursor":"c1","is_end":false,"last_sortidx":48}"#);
    assert_eq!(step.event, ScanLikesEvent { count: 12, running: true });
    assert_eq!(signalled_end(&Some(step.signal)), Some(false));
    // a page without new posts keeps the last sort index
    let empty: CursoredData<LikedPost> = CursoredData { list: Vec::new(), next: String::new(), is_end: true };
    let step = conclude(&progress, &empty);
    assert_eq!(step.params.get("last_sortidx").unwrap().as_u64(), Some(50));
    assert_eq!(step.params.get("count").unwrap().as_u64(), Some(10));
    assert_eq!(step.event, ScanLikesEvent { count: 10, running: false });
    assert_eq!(signalled_end(&Some(step.signal)), Some(true));
    let fresh = ScanProgress { cursor: None, last_sortidx: None, count: u32::MAX };
    let step = conclude(&fresh, &batch);
    assert_eq!(step.params.get("count").unwrap().as_u64(), Some(u32::MAX as u64));
    let step = conclude(&ScanProgress { cursor: None, last_sortidx: None, count: 0 }, &empty);
    assert!(step.params.get("last_sortidx").unwrap().is_null());
}

#[test]
fn a_page_is_digested_below_the_last_sort_index() {
    let body = Json::parse(
        r#"{"data":{"user":{"result":{"timeline":{"timeline":{"instructions":[{"type":"TimelineAddEntries","entries":[]}]}}}}}}"#,
    )
    .unwrap();
    let progress = ScanProgress { cursor: None, last_sortidx: Some(5), count: 0 };
    let data = digest_page(&body, &progress, &Vec::new(), &globals()).unwrap();
    assert!(data.is_end);
    let bad = Json::parse("{}").unwrap();
    assert_eq!(
        digest_page(&bad, &progress, &Vec::new(), &globals()).err(),
        Some(ScanError::Ingest(IngestError::NoInstruction))
    );
}

use rad_patch::codec::{decode, encode, first_line_end, is_patch_tag_name};
use rad_patch::discovery::{discover, filter_by_state, list_by_state, row, PeerTags};
use rad_patch::graph::{classify, state_of, CommitGraph};
use rad_patch::options::{ArgToken, ArgsError, Options};
use rad_patch::project::{Delegation, Metadata, MetadataError, ProjectIdentity};
use rad_patch::store::decide_state;
use rad_patch::publish::{PublishAction, PublishError, Publication, Stage};
use rad_patch::types::{ClassifyError, DecodeError, PatchState, PeerIdentity, TagRef};

fn peer(id: &str, name: &str) -> PeerIdentity {
    PeerIdentity { id: id.to_string(), name: name.to_string() }
}

fn tag(id: &str, name: &str, message: Option<&str>, target: &str) -> TagRef {
    TagRef {
        id: id.to_string(),
        name: name.to_string(),
        message: message.map(|m| m.to_string()),
        target: target.to_string(),
    }
}

/// c1 <- c2 on one line of history, and an unrelated root r1 <- r2.
fn history() -> CommitGraph {
    CommitGraph {
        ids: vec!["c1".to_string(), "c2".to_string(), "r1".to_string(), "r2".to_string()],
        parents: vec![vec![], vec![0], vec![], vec![2]],
    }
}

#[test]
fn encode_gives_prefixed_name_and_message() {
    let (name, message) = encode("feature", "Add X", "");
    assert_eq!(name, "patches/feature");
    assert_eq!(message, "Add X\n");
    let (name, message) = encode("fix/bug", "Fix", "Body\nmore");
    assert_eq!(name, "patches/fix/bug");
    assert_eq!(message, "Fix\nBody\nmore");
}

#[test]
fn decode_reverses_encode() {
    let who = peer("p1", "alice");
    for (branch, title, description) in
        [("feature", "Add X", ""), ("a/b", "T", "line one\nline two"), ("x", "", "d")]
    {
        let (name, message) = encode(branch, title, description);
        let p = decode(&tag("t1", &name, Some(&message), "c2"), &who).unwrap();
        assert_eq!(p.source_ref_name, branch);
        assert_eq!(p.title, title);
        assert_eq!(p.description, description);
        assert_eq!(p.target_commit, "c2");
        assert_eq!(p.id, "t1");
        assert_eq!(p.peer.id, "p1");
        assert_eq!(p.peer.name, "alice");
    }
}

#[test]
fn decode_without_prefix_is_malformed() {
    let who = peer("p1", "alice");
    for name in ["feature", "patch/feature", "", "patches", "Patches/x", "xpatches/y"] {
        let r = decode(&tag("t", name, Some("Title\n"), "c1"), &who);
        assert!(matches!(r, Err(DecodeError::MalformedTag)), "{}", name);
    }
}

#[test]
fn decode_without_message_is_malformed() {
    let who = peer("p1", "alice");
    assert!(matches!(
        decode(&tag("t", "patches/f", None, "c1"), &who),
        Err(DecodeError::MalformedTag)
    ));
    assert!(matches!(
        decode(&tag("t", "patches/f", Some(""), "c1"), &who),
        Err(DecodeError::MalformedTag)
    ));
}

#[test]
fn decode_message_without_newline() {
    let p = decode(&tag("t", "patches/", Some("Only a title"), "c1"), &peer("p", "n")).unwrap();
    assert_eq!(p.title, "Only a title");
    assert_eq!(p.description, "");
    assert_eq!(p.source_ref_name, "");
}

#[test]
fn line_end_and_prefix() {
    assert_eq!(first_line_end("ab\ncd"), 2);
    assert_eq!(first_line_end("abc"), 3);
    assert_eq!(first_line_end("\n"), 0);
    assert_eq!(first_line_end("é\nx"), 1);
    assert!(is_patch_tag_name("patches/x"));
    assert!(is_patch_tag_name("patches/"));
    assert!(!is_patch_tag_name("patches"));
}

#[test]
fn ancestry_over_the_view() {
    let g = history();
    let s = |a: &str, b: &str| g.is_ancestor_or_equal(&a.to_string(), &b.to_string());
    assert!(s("c1", "c2"));
    assert!(s("c1", "c1"));
    assert!(!s("c2", "c1"));
    assert!(!s("r1", "c2"));
    assert!(s("r1", "r2"));
    assert!(!s("zz", "c2"));
    assert!(s("zz", "zz"));
    assert_eq!(g.index_of(&"r1".to_string()), Some(2));
    assert_eq!(g.index_of(&"nope".to_string()), None);
    assert_eq!(g.ancestors_of(1), vec![true, true, false, false]);
}

#[test]
fn long_chain_reaches_root() {
    let n = 30;
    let ids: Vec<String> = (0..n).map(|i| format!("c{}", i)).collect();
    let parents: Vec<Vec<usize>> =
        (0..n).map(|i| if i == 0 { vec![] } else { vec![i - 1] }).collect();
    let g = CommitGraph { ids, parents };
    assert!(g.is_ancestor_or_equal(&"c0".to_string(), &"c29".to_string()));
    assert!(!g.is_ancestor_or_equal(&"c29".to_string(), &"c0".to_string()));
}

#[test]
fn merge_commit_has_both_parents_as_ancestors() {
    let g = CommitGraph {
        ids: vec!["a".to_string(), "b".to_string(), "m".to_string()],
        parents: vec![vec![], vec![], vec![0, 1]],
    };
    assert!(g.is_ancestor_or_equal(&"a".to_string(), &"m".to_string()));
    assert!(g.is_ancestor_or_equal(&"b".to_string(), &"m".to_string()));
    assert!(!g.is_ancestor_or_equal(&"a".to_string(), &"b".to_string()));
}

#[test]
fn classify_states() {
    let g = history();
    let who = peer("p1", "alice");
    let (name, message) = encode("feature", "Add X", "");
    let p = decode(&tag("t1", &name, Some(&message), "c2"), &who).unwrap();
    // The tip of the default branch is the proposal's target: merged.
    assert_eq!(classify(&g, &p, &Some("c2".to_string())), Ok(PatchState::Merged));
    // The target is ahead of the tip: open.
    assert_eq!(classify(&g, &p, &Some("c1".to_string())), Ok(PatchState::Open));
    // No history in common: open.
    assert_eq!(classify(&g, &p, &Some("r2".to_string())), Ok(PatchState::Open));
    // No local tip.
    assert_eq!(classify(&g, &p, &None), Err(ClassifyError::UnresolvedReference));
    assert_eq!(state_of(&g, &p, &None), PatchState::Open);
}

#[test]
fn classify_twice_gives_the_same_state() {
    let g = history();
    let p = decode(&tag("t1", "patches/f", Some("T\n"), "c1"), &peer("p", "n")).unwrap();
    let tip = Some("c2".to_string());
    let first = classify(&g, &p, &tip);
    let second = classify(&g, &p, &tip);
    assert_eq!(first, second);
    assert_eq!(first, Ok(PatchState::Merged));
}

fn peer_tags(id: &str, name: &str, tags: Option<Vec<TagRef>>) -> PeerTags {
    PeerTags { peer: peer(id, name), tags }
}

#[test]
fn discovery_skips_unreadable_peers_and_malformed_tags() {
    let me = peer("me", "me");
    let local = vec![
        tag("t1", "patches/a", Some("A\n"), "c1"),
        tag("t2", "other/b", Some("B\n"), "c1"),
        tag("t3", "patches/c", None, "c1"),
    ];
    let remotes = vec![
        peer_tags("bob", "bob", None),
        peer_tags("carol", "carol", Some(vec![tag("t4", "patches/d", Some("D\nmore"), "c2")])),
        peer_tags("me", "me", Some(vec![tag("t5", "patches/e", Some("E\n"), "c2")])),
        peer_tags("dave", "dave", Some(vec![])),
    ];
    let found = discover(&me, &local, &remotes);
    let titles: Vec<&str> = found.iter().map(|p| p.title.as_str()).collect();
    assert_eq!(titles, vec!["A", "D"]);
    assert_eq!(found[1].peer.id, "carol");
    assert_eq!(found[1].description, "more");

    let without_bob: Vec<PeerTags> = remotes.into_iter().skip(1).collect();
    let again = discover(&me, &local, &without_bob);
    assert_eq!(again.len(), found.len());
}

#[test]
fn publish_then_discover_open_then_merged() {
    // main at c1; feature at c2, a child of c1.
    let g = history();
    let mut publication = Publication::new("feature", "Add X", "");
    let mut created: Option<TagRef> = None;
    loop {
        match publication.action() {
            PublishAction::CreateTag { name, message } => {
                assert_eq!(name, "patches/feature");
                assert_eq!(message, "Add X\n");
                created = Some(tag("t1", &name, Some(&message), "c2"));
                publication.record(true);
            }
            PublishAction::PushTag { name } => {
                assert_eq!(name, "patches/feature");
                publication.record(true);
            }
            PublishAction::PushBranch { branch } => {
                assert_eq!(branch, "feature");
                publication.record(true);
            }
            PublishAction::Done => break,
            PublishAction::Failed(e) => panic!("{:?}", e),
        }
    }
    assert_eq!(publication.outcome(), Some(Ok(())));
    let me = peer("me", "me");
    let local = vec![created.clone().unwrap()];
    let found = discover(&me, &local, &vec![]);
    assert_eq!(found.len(), 1);
    assert_eq!(found[0].title, "Add X");
    assert_eq!(state_of(&g, &found[0], &Some("c1".to_string())), PatchState::Open);
    let open = list_by_state(&g, &Some("c1".to_string()), &me, &local, &vec![], PatchState::Open);
    assert_eq!(open.len(), 1);

    // main fast-forwarded to c2: the same tag now reads as merged.
    let found = discover(&me, &local, &vec![]);
    assert_eq!(found[0].target_commit, "c2");
    assert_eq!(state_of(&g, &found[0], &Some("c2".to_string())), PatchState::Merged);
    let merged = filter_by_state(&g, &Some("c2".to_string()), &found, PatchState::Merged);
    assert_eq!(merged.len(), 1);
    let open = filter_by_state(&g, &Some("c2".to_string()), &found, PatchState::Open);
    assert!(open.is_empty());
}

#[test]
fn tag_push_failure_leaves_local_tag() {
    let mut publication = Publication::new("feature", "Add X", "");
    assert!(matches!(publication.action(), PublishAction::CreateTag { .. }));
    publication.record(true);
    let local_tag = tag("t1", &publication.tag_name, Some(&publication.message), "c2");
    assert!(matches!(publication.action(), PublishAction::PushTag { .. }));
    publication.record(false);
    assert_eq!(publication.stage, Stage::Failed(PublishError::TagPushFailed));
    assert!(matches!(publication.action(), PublishAction::Failed(PublishError::TagPushFailed)));
    assert_eq!(publication.outcome(), Some(Err(PublishError::TagPushFailed)));
    // Later reports change nothing.
    publication.record(true);
    assert_eq!(publication.stage, Stage::Failed(PublishError::TagPushFailed));

    let mine = discover(&peer("me", "me"), &vec![local_tag], &vec![]);
    assert_eq!(mine.len(), 1);
    let theirs = discover(&peer("bob", "bob"), &vec![], &vec![peer_tags("me", "me", None)]);
    assert!(theirs.is_empty());
}

#[test]
fn publish_failures_name_the_step() {
    let mut p = Publication::new("b", "T", "d");
    assert_eq!(p.outcome(), None);
    p.record(false);
    assert_eq!(p.outcome(), Some(Err(PublishError::TagCreationFailed)));

    let mut p = Publication::new("b", "T", "d");
    p.record(true);
    p.record(true);
    assert!(matches!(p.action(), PublishAction::PushBranch { .. }));
    p.record(false);
    assert_eq!(p.outcome(), Some(Err(PublishError::BranchPushFailed)));
}

#[test]
fn rows_mark_the_local_peer() {
    let p = decode(&tag("abc", "patches/f", Some("Title\nBody"), "c1"), &peer("me", "Me")).unwrap();
    let r = row(&p, &"me".to_string());
    assert_eq!(r.title, "Title");
    assert_eq!(r.opened_by, "Me");
    assert!(r.you);
    assert_eq!(r.id, "abc");
    assert!(!row(&p, &"other".to_string()).you);
}

#[test]
fn options_from_first_argument() {
    let long = |s: &str| ArgToken::Long(s.to_string());
    let base = Options { list: false, verbose: false, sync: true };
    assert_eq!(Options::from_args(&vec![]), Ok(base));
    assert_eq!(Options::from_args(&vec![long("list")]), Ok(Options { list: true, ..base }));
    assert_eq!(Options::from_args(&vec![ArgToken::Short('l')]), Ok(Options { list: true, ..base }));
    assert_eq!(Options::from_args(&vec![long("verbose")]), Ok(Options { verbose: true, ..base }));
    assert_eq!(Options::from_args(&vec![ArgToken::Short('v')]), Ok(Options { verbose: true, ..base }));
    assert_eq!(Options::from_args(&vec![long("sync")]), Ok(base));
    assert_eq!(Options::from_args(&vec![long("no-sync")]), Ok(Options { sync: false, ..base }));
    assert_eq!(Options::from_args(&vec![long("help")]), Err(ArgsError::Help));
    assert_eq!(Options::from_args(&vec![long("bogus")]), Err(ArgsError::Unexpected));
    assert_eq!(Options::from_args(&vec![ArgToken::Short('x')]), Err(ArgsError::Unexpected));
    assert_eq!(Options::from_args(&vec![ArgToken::Value("x".to_string())]), Err(ArgsError::Unexpected));
    assert_eq!(Options::from_args(&vec![long("list"), long("no-sync")]), Ok(Options { list: true, ..base }));
    assert_eq!(Options::default(), Options { list: false, verbose: false, sync: false });
}

#[test]
fn metadata_from_identity() {
    let project = ProjectIdentity {
        name: "heartwood".to_string(),
        description: None,
        default_branch: Some("main".to_string()),
        delegations: vec![
            Delegation::Key("k1".to_string()),
            Delegation::Indirect { urn: "u1".to_string(), keys: vec!["k2".to_string(), "k1".to_string()] },
            Delegation::Indirect { urn: "u1".to_string(), keys: vec!["k3".to_string()] },
        ],
    };
    let m = Metadata::try_from(&project).unwrap();
    assert_eq!(m.name, "heartwood");
    assert_eq!(m.description, "");
    assert_eq!(m.default_branch, "main");
    assert_eq!(m.delegates, vec!["u1".to_string()]);
    assert_eq!(m.remotes, vec!["k1".to_string(), "k2".to_string(), "k3".to_string()]);

    let missing = ProjectIdentity { default_branch: None, description: Some("d".to_string()), ..project };
    assert_eq!(Metadata::try_from(&missing).err(), Some(MetadataError::MissingDefaultBranch));
}

#[test]
fn store_answer_decides_state() {
    let p = decode(&tag("t", "patches/f", Some("T\n"), "aa"), &peer("p", "n")).unwrap();
    let tip = "bb".to_string();
    assert_eq!(decide_state(&p, &tip, Some(true)), PatchState::Merged);
    assert_eq!(decide_state(&p, &tip, Some(false)), PatchState::Open);
    assert_eq!(decide_state(&p, &tip, None), PatchState::Open);
    assert_eq!(decide_state(&p, &"aa".to_string(), Some(false)), PatchState::Merged);
    assert_eq!(decide_state(&p, &"aa".to_string(), None), PatchState::Merged);
}

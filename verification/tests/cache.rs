use docker_test::cache::{patience, BuildCache, BuildKey, BuildResult, GuardState, Ticket};
use docker_test::error::Error;
use docker_test::process::{ExitStatus, Output};

fn key(n: u32) -> BuildKey {
    BuildKey::new(format!("/proj/{n}").as_str(), "", "img")
}

fn artifact(n: u32) -> Result<BuildResult, Error> {
    Ok(BuildResult::Artifact(format!("/proj/{n}/target/bin")))
}

fn failure() -> Error {
    Error::Build(Output {
        status: ExitStatus { code: Some(101) },
        stdout: Vec::new(),
        stderr: b"error[E0308]".to_vec(),
    })
}

#[test]
fn keys_are_equal_when_all_parts_match() {
    let k = BuildKey::new("/proj", "a b", "img");
    assert!(k.same(&BuildKey::new("/proj", "a b", "img")));
    assert!(k.same(&BuildKey::new("/proj", "a_b", "img")));
    assert_eq!(k, BuildKey::new("/proj", "a_b", "img"));
    assert_ne!(k, BuildKey::new("/proj", "a-b", "img"));
    assert!(k.same(&k.duplicate()));
    assert!(!k.same(&BuildKey::new("/proj2", "a b", "img")));
    assert!(!k.same(&BuildKey::new("/proj", "a,b", "img")));
    assert!(!k.same(&BuildKey::new("/proj", "a b", "img2")));
    assert!(!k.same(&BuildKey::new("/proj", "ab", "img")));
    assert_eq!(k.project_dir(), "/proj");
    assert_eq!(k.features(), "a_b");
    assert_eq!(k.image(), "img");
}

#[test]
fn there_is_no_cache_without_room() {
    assert!(BuildCache::new(0).is_none());
    assert_eq!(BuildCache::new(1).unwrap().capacity(), 1);
    assert_eq!(BuildCache::new(16).unwrap().capacity(), 16);
}

#[test]
fn first_caller_builds_and_the_others_wait() {
    let mut cache = BuildCache::new(4).unwrap();
    assert_eq!(cache.state(&key(1)), GuardState::Absent);
    assert_eq!(cache.begin(&key(1)), Ticket::Build);
    assert_eq!(cache.state(&key(1)), GuardState::InProgress);
    for _ in 0..5 {
        assert_eq!(cache.begin(&key(1)), Ticket::Wait);
    }
    assert!(cache.complete(&key(1), artifact(1)));
    for _ in 0..5 {
        assert_eq!(cache.begin(&key(1)), Ticket::Done(artifact(1)));
    }
    assert_eq!(
        cache.state(&key(1)),
        GuardState::Ready(BuildResult::Artifact("/proj/1/target/bin".to_string()))
    );
}

#[test]
fn build_runs_once_however_many_callers_ask() {
    for callers in 1..20 {
        let mut cache = BuildCache::new(2).unwrap();
        let mut builds = 0;
        for n in 0..callers {
            if cache.begin(&key(7)) == Ticket::Build {
                builds += 1;
            }
            assert_eq!(cache.begin(&key(100 + n)), Ticket::Build);
            assert!(cache.complete(&key(100 + n), artifact(100 + n)));
        }
        assert_eq!(builds, 1);
        assert_eq!(cache.state(&key(7)), GuardState::InProgress);
    }
}

#[test]
fn different_keys_do_not_wait_for_each_other() {
    let mut cache = BuildCache::new(4).unwrap();
    assert_eq!(cache.begin(&key(1)), Ticket::Build);
    assert_eq!(cache.begin(&key(2)), Ticket::Build);
    assert_eq!(cache.begin(&key(3)), Ticket::Build);
    assert!(cache.complete(&key(2), artifact(2)));
    assert_eq!(cache.begin(&key(1)), Ticket::Wait);
    assert_eq!(cache.begin(&key(2)), Ticket::Done(artifact(2)));
    assert_eq!(cache.begin(&key(3)), Ticket::Wait);
    assert_eq!(cache.begin(&key(4)), Ticket::Build);
}

#[test]
fn failure_is_final_and_shared() {
    let mut cache = BuildCache::new(4).unwrap();
    assert_eq!(cache.begin(&key(1)), Ticket::Build);
    assert_eq!(cache.begin(&key(1)), Ticket::Wait);
    assert!(cache.complete(&key(1), Err(failure())));
    assert_eq!(cache.state(&key(1)), GuardState::Failed(failure()));
    assert_eq!(cache.begin(&key(1)), Ticket::Done(Err(failure())));
    assert_eq!(cache.begin(&key(1)), Ticket::Done(Err(failure())));
    assert!(!cache.complete(&key(1), artifact(1)));
    assert_eq!(cache.begin(&key(1)), Ticket::Done(Err(failure())));
}

#[test]
fn only_a_build_in_flight_can_end() {
    let mut cache = BuildCache::new(4).unwrap();
    assert!(!cache.complete(&key(1), artifact(1)));
    assert_eq!(cache.state(&key(1)), GuardState::Absent);
    assert_eq!(cache.begin(&key(1)), Ticket::Build);
    assert!(cache.complete(&key(1), artifact(1)));
    assert!(!cache.complete(&key(1), Err(failure())));
    assert_eq!(cache.begin(&key(1)), Ticket::Done(artifact(1)));
}

#[test]
fn full_cache_gives_up_the_least_recently_used() {
    let mut cache = BuildCache::new(2).unwrap();
    for n in 1..=2 {
        assert_eq!(cache.begin(&key(n)), Ticket::Build);
        assert!(cache.complete(&key(n), artifact(n)));
    }
    assert_eq!(cache.begin(&key(1)), Ticket::Done(artifact(1)));
    assert_eq!(cache.begin(&key(3)), Ticket::Build);
    assert_eq!(cache.state(&key(2)), GuardState::Ready(BuildResult::Artifact("/proj/2/target/bin".to_string())));
    assert!(cache.complete(&key(3), artifact(3)));
    assert_eq!(cache.state(&key(2)), GuardState::Absent);
    assert_eq!(cache.begin(&key(1)), Ticket::Done(artifact(1)));
    assert_eq!(cache.begin(&key(3)), Ticket::Done(artifact(3)));
    assert_eq!(cache.begin(&key(2)), Ticket::Build);
}

#[test]
fn builds_in_flight_are_never_given_up() {
    let mut cache = BuildCache::new(1).unwrap();
    assert_eq!(cache.begin(&key(1)), Ticket::Build);
    for n in 2..10 {
        assert_eq!(cache.begin(&key(n)), Ticket::Build);
        assert!(cache.complete(&key(n), artifact(n)));
        assert_eq!(cache.state(&key(1)), GuardState::InProgress);
    }
    assert_eq!(cache.begin(&key(1)), Ticket::Wait);
    assert!(cache.complete(&key(1), artifact(1)));
    assert_eq!(cache.begin(&key(1)), Ticket::Done(artifact(1)));
    assert_eq!(cache.state(&key(9)), GuardState::Absent);
}

#[test]
fn waiting_ends_at_the_bound() {
    let mut cache = BuildCache::new(4).unwrap();
    assert_eq!(cache.request(&key(1), 0, Some(0)), Ok(Ticket::Build));
    assert_eq!(cache.request(&key(1), 0, None), Ok(Ticket::Wait));
    assert_eq!(cache.request(&key(1), u64::MAX, None), Ok(Ticket::Wait));
    assert_eq!(cache.request(&key(1), 99, Some(100)), Ok(Ticket::Wait));
    assert_eq!(cache.request(&key(1), 100, Some(100)), Err(Error::CacheUnavailable));
    assert_eq!(cache.request(&key(1), 101, Some(100)), Err(Error::CacheUnavailable));
    assert_eq!(cache.request(&key(1), 0, Some(0)), Err(Error::CacheUnavailable));
    assert_eq!(cache.state(&key(1)), GuardState::InProgress);
    assert!(cache.complete(&key(1), Err(failure())));
    assert_eq!(cache.request(&key(1), 500, Some(100)), Ok(Ticket::Done(Err(failure()))));
}

#[test]
fn patience_runs_out_at_the_bound() {
    assert_eq!(patience(None, 0), None);
    assert_eq!(patience(None, u64::MAX), None);
    assert_eq!(patience(Some(100), 0), Some(100));
    assert_eq!(patience(Some(100), 99), Some(1));
    assert_eq!(patience(Some(100), 100), Some(0));
    assert_eq!(patience(Some(100), 101), Some(0));
    assert_eq!(patience(Some(0), 0), Some(0));
    assert_eq!(patience(Some(u64::MAX), 1), Some(u64::MAX - 1));
}

#[test]
fn second_request_is_answered_without_building() {
    let mut cache = BuildCache::new(4).unwrap();
    let mut runs = 0;
    let first = cache.get_or_build(&key(1), || {
        runs += 1;
        artifact(1)
    });
    let second = cache.get_or_build(&key(1), || {
        runs += 1;
        Ok(BuildResult::Artifact("/somewhere/else".to_string()))
    });
    assert_eq!(first, artifact(1));
    assert_eq!(second, first);
    assert_eq!(runs, 1);
}

#[test]
fn failed_build_is_not_tried_again() {
    let mut cache = BuildCache::new(4).unwrap();
    let mut runs = 0;
    let first = cache.get_or_build(&key(1), || {
        runs += 1;
        Err(failure())
    });
    let second = cache.get_or_build(&key(1), || {
        runs += 1;
        artifact(1)
    });
    assert_eq!(first, Err(failure()));
    assert_eq!(second, Err(failure()));
    assert_eq!(runs, 1);
}

#[test]
fn key_in_flight_is_unavailable_to_who_holds_the_cache() {
    let mut cache = BuildCache::new(4).unwrap();
    assert_eq!(cache.begin(&key(1)), Ticket::Build);
    let mut runs = 0;
    let r = cache.get_or_build(&key(1), || {
        runs += 1;
        artifact(1)
    });
    assert_eq!(r, Err(Error::CacheUnavailable));
    assert_eq!(runs, 0);
    assert_eq!(cache.state(&key(1)), GuardState::InProgress);
}

#[test]
fn image_results_are_kept_apart_from_artifacts() {
    let mut cache = BuildCache::new(4).unwrap();
    let image = BuildResult::Image("9f3a1c".to_string());
    assert_eq!(cache.get_or_build(&key(1), || Ok(image.duplicate())), Ok(image.clone()));
    assert_ne!(image, BuildResult::Artifact("9f3a1c".to_string()));
    assert_eq!(cache.state(&key(1)), GuardState::Ready(image));
}

use oort::services::{
    compiler_url, compiler_vm_url, is_local, leaderboard_submission_url, leaderboard_url,
    telemetry_url,
};

#[test]
fn local_pages_are_recognised_by_host_name() {
    assert!(is_local("localhost"));
    assert!(!is_local("oort.rs"));
    assert!(!is_local("localhost."));
    assert!(!is_local(""));
}

#[test]
fn local_services_listen_on_their_ports() {
    assert_eq!(compiler_vm_url(true), "http://localhost:8081");
    assert_eq!(compiler_url(true), "http://localhost:8081");
    assert_eq!(telemetry_url(true), "http://localhost:8082");
    assert_eq!(leaderboard_url(true), "http://localhost:8083");
}

#[test]
fn public_services_have_their_own_hosts() {
    assert_eq!(compiler_vm_url(false), "https://compiler-vm.oort.rs");
    assert_eq!(compiler_url(false), "https://compiler.oort.rs");
    assert_eq!(telemetry_url(false), "https://telemetry.oort.rs");
    assert_eq!(leaderboard_url(false), "https://leaderboard.oort.rs");
}

#[test]
fn submissions_go_to_the_leaderboard_path() {
    assert_eq!(leaderboard_submission_url(true), "http://localhost:8083/leaderboard");
    assert_eq!(leaderboard_submission_url(false), "https://leaderboard.oort.rs/leaderboard");
}

use pldownloader::copy::{copy_file_path, CopyAction, CopyJob};
use pldownloader::desktop::{Pldownloader, Scope};
use pldownloader::mobile::{forward, relay, Operation};
use pldownloader::paths::{final_component, is_valid_file_name, join_path};
use pldownloader::{
    DownloadPrivateRequest, DownloadPublicRequest, Error, ErrorKind, PingRequest, PingResponse,
    SaveFilePrivateFromBufferRequest, SaveFilePrivateFromPathRequest,
    SaveFilePublicFromBufferRequest, SaveFilePublicFromPathRequest,
};

fn desktop() -> Pldownloader {
    Pldownloader::new(Some("/data/app".to_string()), Some("/home/u/Downloads".to_string()))
}

fn unresolved() -> Pldownloader {
    Pldownloader::new(None, None)
}

fn kind_and_message(e: &Error) -> (ErrorKind, String) {
    (e.kind(), e.message())
}

#[test]
fn ping_echoes_value() {
    let r = desktop().ping(PingRequest { value: Some("hello".to_string()) }).unwrap();
    assert_eq!(r.value, Some("hello".to_string()));
}

#[test]
fn ping_echoes_absent_value() {
    let r = desktop().ping(PingRequest { value: None }).unwrap();
    assert_eq!(r.value, None);
}

#[test]
fn download_private_is_unsupported() {
    let r = desktop().download_private(DownloadPrivateRequest {
        url: "https://example.com/a.bin".to_string(),
        file_name: None,
    });
    let e = r.unwrap_err();
    assert_eq!(
        kind_and_message(&e),
        (ErrorKind::Unsupported, "download_private not implemented on desktop".to_string())
    );
}

#[test]
fn download_public_is_unsupported() {
    let r = desktop().download_public(DownloadPublicRequest {
        url: "https://example.com/a.bin".to_string(),
        file_name: Some("a.bin".to_string()),
        mime_type: Some("application/octet-stream".to_string()),
    });
    let e = r.unwrap_err();
    assert_eq!(
        kind_and_message(&e),
        (ErrorKind::Unsupported, "download_public not implemented on desktop".to_string())
    );
}

#[test]
fn private_buffer_save_lands_under_private_dir() {
    let plan = desktop()
        .save_file_private_from_buffer(SaveFilePrivateFromBufferRequest {
            data: vec![1, 2, 3],
            file_name: "notes.txt".to_string(),
        })
        .unwrap();
    assert_eq!(plan.create_dir, "/data/app/private");
    assert_eq!(plan.path, "/data/app/private/notes.txt");
    assert_eq!(plan.data, vec![1, 2, 3]);
    let resp = plan.complete(Ok(())).unwrap();
    assert_eq!(resp.file_name, "notes.txt");
    assert_eq!(resp.path, Some("/data/app/private/notes.txt".to_string()));
    assert_eq!(resp.uri, None);
}

#[test]
fn public_buffer_save_lands_in_downloads() {
    let plan = desktop()
        .save_file_public_from_buffer(SaveFilePublicFromBufferRequest {
            data: vec![9],
            file_name: "report.pdf".to_string(),
            mime_type: Some("application/pdf".to_string()),
        })
        .unwrap();
    assert_eq!(plan.create_dir, "/home/u/Downloads");
    assert_eq!(plan.path, "/home/u/Downloads/report.pdf");
    let resp = plan.complete(Ok(())).unwrap();
    assert_eq!(resp.file_name, "report.pdf");
    assert_eq!(resp.path, Some("/home/u/Downloads/report.pdf".to_string()));
}

#[test]
fn root_with_trailing_separator_is_not_doubled() {
    let d = Pldownloader::new(Some("/data/app/".to_string()), Some("/dl/".to_string()));
    let plan = d.plan_buffer(Scope::Public, vec![], "a".to_string()).unwrap();
    assert_eq!(plan.path, "/dl/a");
    let plan = d.plan_buffer(Scope::Private, vec![], "a".to_string()).unwrap();
    assert_eq!(plan.path, "/data/app/private/a");
}

#[test]
fn same_name_saves_target_same_path() {
    let d = desktop();
    let first = d.plan_buffer(Scope::Private, vec![1], "same.bin".to_string()).unwrap();
    let second = d.plan_buffer(Scope::Private, vec![2, 2], "same.bin".to_string()).unwrap();
    assert_eq!(first.path, second.path);
    assert_eq!(second.data, vec![2, 2]);
}

#[test]
fn missing_app_data_dir_is_not_found() {
    let e = unresolved()
        .save_file_private_from_buffer(SaveFilePrivateFromBufferRequest {
            data: vec![1],
            file_name: "a".to_string(),
        })
        .unwrap_err();
    assert_eq!(kind_and_message(&e), (ErrorKind::NotFound, "App data directory not found".to_string()));
}

#[test]
fn missing_downloads_dir_is_not_found() {
    let e = unresolved()
        .save_file_public_from_buffer(SaveFilePublicFromBufferRequest {
            data: vec![1],
            file_name: "a".to_string(),
            mime_type: None,
        })
        .unwrap_err();
    assert_eq!(kind_and_message(&e), (ErrorKind::NotFound, "Downloads directory not found".to_string()));
}

#[test]
fn unsafe_file_names_are_rejected() {
    let d = desktop();
    for name in ["", "a/b", "..\\x", "/"] {
        let e = d.plan_buffer(Scope::Private, vec![], name.to_string()).unwrap_err();
        assert_eq!(kind_and_message(&e), (ErrorKind::Io, format!("invalid file name: {}", name)));
    }
}

#[test]
fn failed_write_is_io() {
    let plan = desktop().plan_buffer(Scope::Public, vec![1], "a".to_string()).unwrap();
    let e = plan.complete(Err("disk full".to_string())).unwrap_err();
    assert_eq!(kind_and_message(&e), (ErrorKind::Io, "disk full".to_string()));
}

#[test]
fn file_name_checks() {
    assert!(is_valid_file_name("a.txt"));
    assert!(is_valid_file_name("名前.txt"));
    assert!(!is_valid_file_name(""));
    assert!(!is_valid_file_name("dir/a"));
    assert!(!is_valid_file_name("dir\\a"));
}

#[test]
fn joining_and_final_components() {
    assert_eq!(join_path("", "a"), "a");
    assert_eq!(join_path("d", "a"), "d/a");
    assert_eq!(join_path("d/", "a"), "d/a");
    assert_eq!(final_component("/x/y/photo.jpg"), "photo.jpg");
    assert_eq!(final_component("C:\\x\\photo.jpg"), "photo.jpg");
    assert_eq!(final_component("plain"), "plain");
    assert_eq!(final_component("dir/"), "");
}

#[test]
fn copy_with_missing_source_is_not_found_and_copies_nothing() {
    let mut job = CopyJob::new("/nope".to_string(), "/out/a".to_string(), Some("/out".to_string()));
    assert!(matches!(&job.action, CopyAction::ProbeSource(p) if p == "/nope"));
    job.advance(Err("No such file or directory".to_string()));
    assert!(job.is_finished());
    match &job.action {
        CopyAction::Finished(Err(e)) => assert_eq!(
            kind_and_message(e),
            (
                ErrorKind::NotFound,
                "Source file not found or inaccessible: No such file or directory".to_string()
            )
        ),
        other => panic!("unexpected action {:?}", other),
    }
    job.advance(Ok(()));
    job.advance(Ok(()));
    assert!(matches!(&job.action, CopyAction::Finished(Err(e)) if e.kind() == ErrorKind::NotFound));
}

#[test]
fn copy_creates_parent_then_copies() {
    let mut job = copy_file_path("/in/a.txt", "/out/new/a.txt");
    assert_eq!(job.parent, Some("/out/new".to_string()));
    job.advance(Ok(()));
    assert!(matches!(&job.action, CopyAction::CreateDir(p) if p == "/out/new"));
    job.advance(Ok(()));
    assert!(matches!(&job.action, CopyAction::CopyFile(s, d) if s == "/in/a.txt" && d == "/out/new/a.txt"));
    job.advance(Ok(()));
    assert!(matches!(&job.action, CopyAction::Finished(Ok(d)) if d == "/out/new/a.txt"));
}

#[test]
fn copy_without_parent_fails() {
    let mut job = copy_file_path("/in/a.txt", "");
    assert_eq!(job.parent, None);
    job.advance(Ok(()));
    match &job.action {
        CopyAction::Finished(Err(e)) => assert_eq!(
            kind_and_message(e),
            (ErrorKind::Io, "Destination path must include a parent directory".to_string())
        ),
        other => panic!("unexpected action {:?}", other),
    }
}

#[test]
fn copy_failures_are_io() {
    let mut job = copy_file_path("/in/a", "/out/a");
    job.advance(Ok(()));
    job.advance(Err("permission denied".to_string()));
    assert!(matches!(&job.action, CopyAction::Finished(Err(e))
        if e.kind() == ErrorKind::Io && e.message() == "Failed to create destination directory: permission denied"));
    let mut job = copy_file_path("/in/a", "/out/a");
    job.advance(Ok(()));
    job.advance(Ok(()));
    job.advance(Err("short write".to_string()));
    assert!(matches!(&job.action, CopyAction::Finished(Err(e))
        if e.kind() == ErrorKind::Io && e.message() == "Failed to copy file: short write"));
}

#[test]
fn path_save_uses_source_name_when_absent() {
    let job = desktop()
        .save_file_private_from_path(SaveFilePrivateFromPathRequest {
            source_path: "/tmp/cache/img.png".to_string(),
            file_name: None,
        })
        .unwrap();
    assert_eq!(job.src, "/tmp/cache/img.png");
    assert_eq!(job.dest, "/data/app/private/img.png");
    assert_eq!(job.parent, Some("/data/app/private".to_string()));
}

#[test]
fn path_save_uses_given_name() {
    let job = desktop()
        .save_file_public_from_path(SaveFilePublicFromPathRequest {
            source_path: "/tmp/cache/img.png".to_string(),
            file_name: Some("holiday.png".to_string()),
        })
        .unwrap();
    assert_eq!(job.dest, "/home/u/Downloads/holiday.png");
    assert_eq!(job.parent, Some("/home/u/Downloads".to_string()));
}

#[test]
fn path_save_with_directory_source_and_no_name_is_rejected() {
    let e = desktop()
        .save_file_public_from_path(SaveFilePublicFromPathRequest {
            source_path: "/tmp/cache/".to_string(),
            file_name: None,
        })
        .unwrap_err();
    assert_eq!(kind_and_message(&e), (ErrorKind::Io, "invalid file name: ".to_string()));
    let e = unresolved()
        .save_file_private_from_path(SaveFilePrivateFromPathRequest {
            source_path: "/tmp/a".to_string(),
            file_name: None,
        })
        .unwrap_err();
    assert_eq!(e.kind(), ErrorKind::NotFound);
}

#[test]
fn mobile_handler_names() {
    assert_eq!(forward(Operation::Ping).unwrap(), "ping");
    assert_eq!(forward(Operation::DownloadPrivate).unwrap(), "downloadPrivate");
    assert_eq!(forward(Operation::DownloadPublic).unwrap(), "downloadPublic");
    let e = forward(Operation::SaveFilePublicFromBuffer).unwrap_err();
    assert_eq!(
        kind_and_message(&e),
        (ErrorKind::Unsupported, "save_file_public_from_buffer is not available on mobile".to_string())
    );
}

#[test]
fn mobile_ping_relay_keeps_value() {
    let r = relay(Ok::<PingResponse, String>(PingResponse { value: Some("v".to_string()) })).unwrap();
    assert_eq!(r.value, Some("v".to_string()));
    let r = relay(Ok::<PingResponse, String>(PingResponse { value: None })).unwrap();
    assert_eq!(r.value, None);
}

#[test]
fn mobile_call_failure_is_platform_call_failed() {
    let e = relay::<PingResponse>(Err("handler not found".to_string())).unwrap_err();
    assert_eq!(kind_and_message(&e), (ErrorKind::PlatformCallFailed, "handler not found".to_string()));
}

#[test]
fn errors_are_built_by_kind() {
    let e = Error::new(ErrorKind::Io, "x".to_string());
    assert!(matches!(e, Error::Io(ref m) if m == "x"));
    assert_eq!(kind_and_message(&Error::new(ErrorKind::PlatformCallFailed, "y".to_string())),
        (ErrorKind::PlatformCallFailed, "y".to_string()));
}

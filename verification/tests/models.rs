use skills_cowork::chat::{
    append_session_message, clear_session_messages, find_session, remove_session, rename_session,
    upsert_session, ChatMessage, ChatSession, MessageRole,
};
use skills_cowork::config::{validate_config, ApiConfig, AppConfig, ConfigService};
use skills_cowork::error::AppError;
use skills_cowork::files::{FileInfo, FileService, FileTreeNode};
use skills_cowork::response::{ApiResponse, HttpResponse};

fn session_with_id(id: &str, name: &str) -> ChatSession {
    let mut s = ChatSession::new(name.to_string());
    s.id = id.to_string();
    s
}

#[test]
fn user_message_carries_a_fresh_uuid() {
    let m = ChatMessage::new_user("hi".to_string());
    assert_eq!(m.id.len(), 36);
    assert!(matches!(m.role, MessageRole::User));
    assert_eq!(m.content, "hi");
    assert!(m.timestamp >= 0);
    assert!(m.attachments.is_empty());
    let m2 = ChatMessage::new_assistant("yo".to_string());
    assert!(matches!(m2.role, MessageRole::Assistant));
    assert_ne!(m.id, m2.id);
}

#[test]
fn fresh_session_is_empty_and_inactive() {
    let s = ChatSession::new("research".to_string());
    assert_eq!(s.id.len(), 36);
    assert_eq!(s.name, "research");
    assert!(s.messages.is_empty());
    assert_eq!(s.created_at, s.updated_at);
    assert!(!s.is_active);
}

#[test]
fn add_and_clear_messages() {
    let mut s = ChatSession::new("notes".to_string());
    s.add_message(ChatMessage::new_user("one".to_string()));
    s.add_message(ChatMessage::new_assistant("two".to_string()));
    assert_eq!(s.messages.len(), 2);
    assert_eq!(s.messages[0].content, "one");
    assert_eq!(s.messages[1].content, "two");
    s.clear_messages();
    assert!(s.messages.is_empty());
    assert_eq!(s.name, "notes");
}

#[test]
fn session_list_bookkeeping() {
    let mut sessions = vec![
        session_with_id("a", "first"),
        session_with_id("b", "second"),
        session_with_id("c", "third"),
    ];
    assert_eq!(find_session(&sessions, &"b".to_string()), Some(1));
    assert_eq!(find_session(&sessions, &"zzz".to_string()), None);

    rename_session(&mut sessions, &"b".to_string(), "renamed".to_string());
    assert_eq!(sessions[1].name, "renamed");
    assert_eq!(sessions[1].id, "b");

    append_session_message(
        &mut sessions,
        &"c".to_string(),
        ChatMessage::new_user("hello".to_string()),
    );
    assert_eq!(sessions[2].messages.len(), 1);
    assert!(sessions[0].messages.is_empty());

    clear_session_messages(&mut sessions, &"c".to_string());
    assert!(sessions[2].messages.is_empty());

    let replacement = session_with_id("b", "replacement");
    upsert_session(&mut sessions, replacement);
    assert_eq!(sessions.len(), 3);
    assert_eq!(sessions[1].name, "replacement");

    let fresh = session_with_id("d", "fourth");
    upsert_session(&mut sessions, fresh);
    assert_eq!(sessions.len(), 4);
    assert_eq!(sessions[3].id, "d");

    remove_session(&mut sessions, &"b".to_string());
    assert_eq!(sessions.len(), 3);
    assert!(find_session(&sessions, &"b".to_string()).is_none());
    assert_eq!(sessions[0].id, "a");
    assert_eq!(sessions[1].id, "c");
    assert_eq!(sessions[2].id, "d");
}

#[test]
fn api_config_defaults_and_validity() {
    let c = ApiConfig::default();
    assert_eq!(c.provider, "openai");
    assert_eq!(c.base_url, "https://api.openai.com/v1");
    assert_eq!(c.model, "gpt-4");
    assert_eq!(c.timeout, 30);
    assert!(c.api_key.is_none());
    assert!(c.proxy.is_none());
    assert!(!c.is_valid());

    let mut c = ApiConfig::new("azure".to_string());
    assert_eq!(c.provider, "azure");
    assert!(!c.is_valid());
    c.api_key = Some("  ".to_string());
    assert!(!c.is_valid());
    c.api_key = Some("\u{a0}".to_string());
    assert!(!c.is_valid());
    c.api_key = Some("sk-123".to_string());
    assert!(c.is_valid());
    c.base_url = " ".to_string();
    assert!(!c.is_valid());
}

#[test]
fn app_config_defaults_and_validation() {
    let c = AppConfig::new("/ws".to_string());
    assert_eq!(c.workspace_path, "/ws");
    assert_eq!(c.language, "zh-CN");
    assert_eq!(c.theme, "light");
    assert_eq!(c.font_size, 14);
    assert!(c.auto_save);
    assert_eq!(c.auto_save_interval, 30);
    assert_eq!(validate_config(&c), Ok(true));

    let d = AppConfig::default_for_home("/home/me");
    assert_eq!(d.workspace_path, "/home/me/cto-skills/workspace");

    let mut bad = AppConfig::new("  ".to_string());
    assert_eq!(validate_config(&bad), Err("Workspace path cannot be empty".to_string()));
    bad = AppConfig::new("/ws".to_string());
    bad.font_size = 7;
    assert_eq!(validate_config(&bad), Err("Font size must be between 8 and 72".to_string()));
    bad.font_size = 73;
    assert!(validate_config(&bad).is_err());
    bad.font_size = 14;
    bad.auto_save_interval = 4;
    assert_eq!(
        validate_config(&bad),
        Err("Auto save interval must be between 5 and 300 seconds".to_string())
    );
    bad.auto_save_interval = 301;
    assert!(validate_config(&bad).is_err());
    bad.auto_save_interval = 300;
    assert_eq!(validate_config(&bad), Ok(true));
}

#[test]
fn config_service_paths() {
    let svc = ConfigService::new("/ws".to_string());
    assert_eq!(svc.config_dir(), "/ws/config");
    assert_eq!(svc.api_config_path(), "/ws/config/api_config.json");
    assert_eq!(svc.app_config_path(), "/ws/config/app_config.json");
    assert_eq!(svc.chat_history_dir(), "/ws/chat-history");
    assert_eq!(svc.sessions_path(), "/ws/chat-history/sessions.json");
}

#[test]
fn file_service_layout() {
    let svc = FileService::new("/ws".to_string());
    assert_eq!(svc.get_workspace_path(), "/ws");
    let dirs = svc.workspace_subdir_paths();
    assert_eq!(
        dirs,
        vec![
            "/ws/projects".to_string(),
            "/ws/uploads".to_string(),
            "/ws/exports".to_string(),
            "/ws/chat-history".to_string(),
            "/ws/skill-packs".to_string(),
        ]
    );
}

#[test]
fn file_info_default_is_empty() {
    let f = FileInfo::default();
    assert_eq!(f.name, "");
    assert_eq!(f.path, "");
    assert_eq!(f.size, 0);
    assert!(!f.is_dir);
    assert!(f.created_at.is_none());
    assert!(f.modified_at.is_none());
    assert!(f.extension.is_none());
}

#[test]
fn file_info_from_parts_extracts_name_extension_and_times() {
    let f = FileInfo::from_parts(
        "/ws/docs/report.tar.gz".to_string(),
        2048,
        false,
        Some(5),
        Some(1234567890),
    );
    assert_eq!(f.name, "report.tar.gz");
    assert_eq!(f.extension.as_deref(), Some("gz"));
    assert_eq!(f.size, 2048);
    assert_eq!(f.created_at.as_deref(), Some("5"));
    assert_eq!(f.modified_at.as_deref(), Some("1234567890"));

    let hidden = FileInfo::from_parts("/ws/.bashrc".to_string(), 1, false, None, None);
    assert_eq!(hidden.name, ".bashrc");
    assert!(hidden.extension.is_none());
    assert!(hidden.created_at.is_none());
}

#[test]
fn file_tree_nodes() {
    let leaf = FileTreeNode::new_leaf("a.rs".to_string(), "/ws/a.rs".to_string(), 10);
    assert_eq!(leaf.key, "/ws/a.rs");
    assert_eq!(leaf.title, "a.rs");
    assert!(leaf.is_leaf);
    assert!(!leaf.expandable);
    assert!(leaf.children.is_none());

    let dir = FileTreeNode::new_dir("src".to_string(), "/ws/src".to_string());
    assert!(!dir.is_leaf);
    assert!(dir.expandable);
    assert_eq!(dir.children.as_ref().unwrap().len(), 0);

    let from_dir = FileTreeNode::from_parts("/ws/src".to_string(), true, 4096);
    assert_eq!(from_dir.title, "src");
    assert_eq!(from_dir.size, 4096);
    assert!(from_dir.expandable);
    let from_file = FileTreeNode::from_parts("/ws/src/lib.rs".to_string(), false, 77);
    assert_eq!(from_file.title, "lib.rs");
    assert!(from_file.is_leaf);
    assert!(from_file.children.is_none());
}

#[test]
fn api_response_envelopes() {
    let ok: ApiResponse<u32> = ApiResponse::success(7);
    assert!(ok.success);
    assert_eq!(ok.data, Some(7));
    assert_eq!(ok.message, "");
    assert!(ok.error.is_none());

    let err: ApiResponse<u32> = ApiResponse::error("boom".to_string());
    assert!(!err.success);
    assert!(err.data.is_none());
    assert_eq!(err.message, "boom");
    assert_eq!(err.error.as_deref(), Some("boom"));

    let msg: ApiResponse<u32> = ApiResponse::with_message("done".to_string());
    assert!(msg.success);
    assert!(msg.data.is_none());
    assert_eq!(msg.message, "done");

    let from_ok: ApiResponse<u32> = ApiResponse::from_result(Ok(3));
    assert!(from_ok.success);
    assert_eq!(from_ok.data, Some(3));
    let from_err: ApiResponse<u32> = ApiResponse::from_result(Err("nope".to_string()));
    assert!(!from_err.success);
    assert_eq!(from_err.error.as_deref(), Some("nope"));

    let http = HttpResponse { status: 200, body: "ok".to_string() };
    assert_eq!(http.status, 200);
    assert_eq!(http.body, "ok");
}

#[test]
fn app_error_messages() {
    assert_eq!(AppError::Io("disk".to_string()).message(), "IO error: disk");
    assert_eq!(AppError::Json("eof".to_string()).message(), "JSON error: eof");
    assert_eq!(AppError::FileNotFound("x".to_string()).message(), "File not found: x");
    assert_eq!(AppError::Cli("dead".to_string()).message(), "CLI error: dead");
    assert_eq!(AppError::Timeout("5s".to_string()).message(), "Timeout: 5s");
    assert_eq!(AppError::Unknown("?".to_string()).message(), "Unknown error: ?");
}

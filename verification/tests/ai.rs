use sheil::ai::{
    download_finished, download_percent, is_gguf_file_name, is_gguf_path, legacy_model_files,
    list_gguf_repo_files, model_path_segments, model_summary, normalize_query,
    parse_model_selection, relative_model_path, relocation_step, relocation_targets,
    search_limit, sort_model_files, split_id, AiModelFile, DownloadEvent, DownloadProgressEmitter,
    FileProgress, RelocationStep, RepoFileEntry,
};
use sheil::command_text::{clean_command, first_command_line, system_prompt_for};

#[test]
fn parse_model_selection_composite() {
    let (repo, filename) = parse_model_selection("owner/name/file.gguf").expect("should parse");
    assert_eq!(repo, "owner/name");
    assert_eq!(filename, "file.gguf");
}

#[test]
fn parse_model_selection_rejects_short_ids() {
    assert!(parse_model_selection("owner/name").is_none());
    assert!(parse_model_selection("curated-id").is_none());
    assert!(parse_model_selection("owner//file.gguf").is_none());
}

#[test]
fn parse_model_selection_keeps_further_slashes_in_file() {
    let (repo, filename) = parse_model_selection("a/b/sub/dir/f.gguf").unwrap();
    assert_eq!(repo, "a/b");
    assert_eq!(filename, "sub/dir/f.gguf");
    assert!(parse_model_selection("/b/f.gguf").is_none());
    assert!(parse_model_selection("a/b/").is_none());
}

#[test]
fn percent_calculation_zero_total() {
    let total_bytes: u64 = 0;
    let bytes_downloaded: u64 = 100;
    let percent: u8 = download_percent(bytes_downloaded, total_bytes);
    assert_eq!(percent, 0);
}

#[test]
fn percent_calculation_partial() {
    let total_bytes: u64 = 1000;
    let bytes_downloaded: u64 = 500;
    let percent: u8 = download_percent(bytes_downloaded, total_bytes);
    assert_eq!(percent, 50);
}

#[test]
fn percent_calculation_complete() {
    let total_bytes: u64 = 1000;
    let bytes_downloaded: u64 = 1000;
    let percent: u8 = download_percent(bytes_downloaded, total_bytes);
    assert_eq!(percent, 100);
}

#[test]
fn percent_calculation_saturates_at_100() {
    let total_bytes: u64 = 100;
    let bytes_downloaded: u64 = 200;
    let percent: u8 = download_percent(bytes_downloaded, total_bytes);
    assert_eq!(percent, 100);
}

#[test]
fn percent_calculation_saturating_product() {
    // u64::MAX * 100 saturates to u64::MAX; divided by u64::MAX that is 1.
    assert_eq!(download_percent(u64::MAX, u64::MAX), 1);
    assert_eq!(download_percent(u64::MAX, 1), 100);
}

#[test]
fn clean_command_plain() {
    assert_eq!(clean_command("ls -la"), "ls -la");
}

#[test]
fn clean_command_strips_fences() {
    assert_eq!(clean_command("```\nfind . -name '*.md'\n```"), "find . -name '*.md'");
}

#[test]
fn clean_command_strips_fences_with_lang() {
    assert_eq!(clean_command("```bash\nfind . -name '*.md'\n```"), "find . -name '*.md'");
}

#[test]
fn clean_command_strips_dollar_prompt() {
    assert_eq!(clean_command("$ ls -la"), "ls -la");
}

#[test]
fn clean_command_takes_first_line() {
    assert_eq!(clean_command("find . -name '*.md'\nsome explanation"), "find . -name '*.md'");
}

#[test]
fn clean_command_extracts_fenced_block_from_prose() {
    let raw = "Files with .md in home folder:\n```\nfind ~ -name '*.md'\n```";
    assert_eq!(clean_command(raw), "find ~ -name '*.md'");
}

#[test]
fn clean_command_strips_single_backticks() {
    assert_eq!(
        clean_command("`find /home -type f -name \"*.md\"`"),
        "find /home -type f -name \"*.md\""
    );
}

#[test]
fn clean_command_empty() {
    assert_eq!(clean_command(""), "");
    assert_eq!(clean_command("   \n  "), "");
}

#[test]
fn clean_command_hash_prompt_and_crlf() {
    assert_eq!(clean_command("# whoami"), "whoami");
    assert_eq!(first_command_line("\r\n  \r\n  uptime \r\nmore"), "uptime");
    assert_eq!(clean_command("```sh\n```"), "");
}

#[test]
fn system_prompt_depends_on_mode() {
    assert!(system_prompt_for("complete").starts_with("You complete shell commands."));
    assert!(system_prompt_for("command").starts_with("You are a shell command generator."));
    assert!(system_prompt_for("anything").starts_with("You are a shell command generator."));
}

#[test]
fn legacy_ids_map_to_repositories() {
    let (repo, files) = legacy_model_files("smollm2-135m-instruct").unwrap();
    assert_eq!(repo, "lmstudio-community/SmolLM2-135M-Instruct-GGUF");
    assert_eq!(files, vec!["SmolLM2-135M-Instruct-Q4_K_M.gguf", "SmolLM2-135M-Instruct-Q8_0.gguf"]);
    assert!(legacy_model_files("unknown").is_none());
}

#[test]
fn relocation_targets_for_selections() {
    assert_eq!(
        relocation_targets("owner/name/file.gguf"),
        vec![("owner/name".to_string(), "file.gguf".to_string())]
    );
    let legacy = relocation_targets("qwen2.5-coder-0.5b-instruct");
    assert_eq!(legacy.len(), 2);
    assert_eq!(legacy[0].0, "Qwen/Qwen2.5-Coder-0.5B-Instruct-GGUF");
    assert_eq!(legacy[1].1, "qwen2.5-coder-0.5b-instruct-q8_0.gguf");
    assert!(relocation_targets("nothing").is_empty());
}

#[test]
fn relocation_step_decisions() {
    assert!(matches!(relocation_step(false, true), RelocationStep::Skip));
    assert!(matches!(relocation_step(true, true), RelocationStep::RemoveFlat));
    assert!(matches!(relocation_step(true, false), RelocationStep::Move));
}

#[test]
fn split_id_and_model_path() {
    assert_eq!(split_id("Qwen/Model-GGUF"), ("Qwen".to_string(), "Model-GGUF".to_string()));
    assert_eq!(split_id("plain"), (String::new(), "plain".to_string()));
    assert_eq!(split_id("a/b/c"), ("a".to_string(), "b/c".to_string()));
    let (o, n, f) = model_path_segments("owner/repo", "m.gguf");
    assert_eq!((o.as_str(), n.as_str(), f.as_str()), ("owner", "repo", "m.gguf"));
}

fn progress(name: &str, done: u64, total: u64) -> FileProgress {
    FileProgress { filename: name.to_string(), bytes_completed: done, total_bytes: total }
}

#[test]
fn progress_emitter_follows_events() {
    let mut e = DownloadProgressEmitter::new("m.gguf".to_string());
    let p = e.on_progress(&DownloadEvent::Start { total_bytes: 1000 }).unwrap();
    assert_eq!((p.percent, p.bytes_downloaded, p.total_bytes), (0, 0, 1000));
    let files = vec![progress("other.bin", 900, 900), progress("m.gguf", 250, 0)];
    let p = e.on_progress(&DownloadEvent::Progress { files }).unwrap();
    assert_eq!((p.percent, p.bytes_downloaded, p.total_bytes), (25, 250, 1000));
    let p = e
        .on_progress(&DownloadEvent::Progress { files: vec![progress("x", 600, 2000)] })
        .unwrap();
    assert_eq!((p.percent, p.bytes_downloaded, p.total_bytes), (30, 600, 2000));
    let p = e
        .on_progress(&DownloadEvent::AggregateProgress { bytes_completed: 2000, total_bytes: 0 })
        .unwrap();
    assert_eq!((p.percent, p.bytes_downloaded, p.total_bytes), (100, 2000, 2000));
    assert!(e.on_progress(&DownloadEvent::Other).is_none());
    assert_eq!(p.filename, "m.gguf");
    let done = download_finished("m.gguf".to_string());
    assert_eq!((done.percent, done.bytes_downloaded, done.total_bytes), (100, 0, 0));
}

#[test]
fn search_parameters() {
    assert_eq!(normalize_query(Some("  qwen ".to_string())), Some("qwen".to_string()));
    assert_eq!(normalize_query(Some("   ".to_string())), None);
    assert_eq!(normalize_query(None), None);
    assert_eq!(search_limit(None), 50);
    assert_eq!(search_limit(Some(0)), 1);
    assert_eq!(search_limit(Some(500)), 100);
    assert_eq!(search_limit(Some(7)), 7);
    let m = model_summary("a/b".to_string(), None, Some(3));
    assert_eq!((m.downloads, m.likes), (0, 3));
}

#[test]
fn gguf_names() {
    assert!(is_gguf_path("dir/Model.GGUF"));
    assert!(!is_gguf_path("model.bin"));
    assert!(is_gguf_file_name("m.gguf"));
    assert!(!is_gguf_file_name(".gguf"));
    assert!(!is_gguf_file_name("m.GGUF"));
}

fn entry(path: &str, size: u64, lfs: Option<u64>) -> RepoFileEntry {
    RepoFileEntry { path: path.to_string(), size, lfs_size: lfs }
}

#[test]
fn repo_files_are_filtered_and_sorted() {
    let entries = vec![
        entry("z.gguf", 10, Some(99)),
        entry("README.md", 5, None),
        entry("a/B.GGUF", 7, None),
        entry("m.gguf", 3, None),
    ];
    let files = list_gguf_repo_files(&entries);
    let names: Vec<&str> = files.iter().map(|f| f.filename.as_str()).collect();
    assert_eq!(names, vec!["a/B.GGUF", "m.gguf", "z.gguf"]);
    assert_eq!(files[2].size_bytes, 99);
    assert_eq!(files[0].size_bytes, 7);
}

#[test]
fn model_files_sort_by_path() {
    let models = vec![
        AiModelFile { filename: "b/x.gguf".to_string(), size_bytes: 1 },
        AiModelFile { filename: "a/y.gguf".to_string(), size_bytes: 2 },
        AiModelFile { filename: "a/x.gguf".to_string(), size_bytes: 3 },
    ];
    let sorted = sort_model_files(models);
    let names: Vec<&str> = sorted.iter().map(|f| f.filename.as_str()).collect();
    assert_eq!(names, vec!["a/x.gguf", "a/y.gguf", "b/x.gguf"]);
}

#[test]
fn relative_paths_join_with_slash() {
    let parts = vec!["owner".to_string(), "repo".to_string(), "f.gguf".to_string()];
    assert_eq!(relative_model_path(&parts), "owner/repo/f.gguf");
    assert_eq!(relative_model_path(&vec!["f.gguf".to_string()]), "f.gguf");
    assert_eq!(relative_model_path(&vec![]), "");
}

#[test]
fn listed_path_selects_the_same_model() {
    let (owner, name, file) = model_path_segments("TheBloke/Model-GGUF", "model.Q4_K_M.gguf");
    let listed = relative_model_path(&vec![owner.clone(), name.clone(), file.clone()]);
    assert_eq!(listed, "TheBloke/Model-GGUF/model.Q4_K_M.gguf");
    let (repo, filename) = parse_model_selection(&listed).unwrap();
    assert_eq!(repo, "TheBloke/Model-GGUF");
    assert_eq!(filename, "model.Q4_K_M.gguf");
    assert_eq!(split_id(&repo), (owner, name));
}

//! Local-model bookkeeping: model selections and their repository layout,
//! legacy model ids, download progress, Hugging Face search parameters and
//! the GGUF files of a repository.
use vstd::prelude::*;
use crate::command_text::find_char;
use crate::sorting::{SortKey, sort_by_key, sorted_by_key, stable_arrangement, text_le, text_le_exec, lemma_text_le_total, lemma_text_le_trans};
use crate::text::{chars_of, slice_chars, string_from_chars, trim, trim_chars};

verus! {

/// A downloaded model file: path relative to the models directory and size.
pub struct AiModelFile {
    pub filename: String,
    pub size_bytes: u64,
}

/// A GGUF model repository on the Hugging Face Hub.
pub struct HfModelSummary {
    pub id: String,
    pub downloads: u64,
    pub likes: u64,
}

/// A GGUF file inside a Hugging Face model repository.
pub struct HfModelRepoFile {
    pub filename: String,
    pub size_bytes: u64,
}

/// Download progress reported to the frontend.
pub struct AiDownloadProgress {
    pub filename: String,
    pub percent: u8,
    pub bytes_downloaded: u64,
    pub total_bytes: u64,
}

/// `(owner, name)` of a repository id: the text before and after the first
/// `/`; an id without `/` has an empty owner.
pub open spec fn spec_split_id(id: Seq<char>) -> (Seq<char>, Seq<char>) {
    let i = find_char(id, '/') as int;
    if i < id.len() {
        (id.take(i), id.skip(i + 1))
    } else {
        (seq![], id)
    }
}

fn find_slash(cs: &Vec<char>, from: usize) -> (r: usize)
    requires
        from <= cs.len(),
    ensures
        r as int == from + find_char(cs@.skip(from as int), '/'),
        from <= r <= cs.len(),
{
    crate::command_text::find_char_from(cs, from, '/')
}

/// Splits a repository id into owner and name (`hf_hub::split_id`, whose
/// whole behaviour is `spec_split_id`).
pub fn split_id(id: &str) -> (r: (String, String))
    ensures
        r.0@ == spec_split_id(id@).0,
        r.1@ == spec_split_id(id@).1,
{
    let cs = chars_of(id);
    assert(cs@.skip(0) =~= cs@);
    let i = find_slash(&cs, 0);
    if i < cs.len() {
        let owner = slice_chars(&cs, 0, i);
        let name = slice_chars(&cs, i + 1, cs.len());
        assert(owner@ =~= cs@.take(i as int));
        assert(name@ =~= cs@.skip(i + 1));
        (string_from_chars(owner.as_slice()), string_from_chars(name.as_slice()))
    } else {
        let empty: Vec<char> = Vec::new();
        assert(empty@ =~= seq![]);
        (string_from_chars(empty.as_slice()), string_from_chars(cs.as_slice()))
    }
}

/// The path segments of a downloaded model below the models directory:
/// owner, repository name, file name.
pub fn model_path_segments(repo: &str, filename: &str) -> (r: (String, String, String))
    ensures
        r.0@ == spec_split_id(repo@).0,
        r.1@ == spec_split_id(repo@).1,
        r.2@ == filename@,
{
    let (owner, name) = split_id(repo);
    (owner, name, String::from_str(filename))
}

/// `<owner>/<name>/<file>` split into `("<owner>/<name>", "<file>")`; the
/// file part keeps any further `/`. `None` unless all three parts are
/// present and non-empty.
pub open spec fn spec_parse_model_selection(id: Seq<char>) -> Option<(Seq<char>, Seq<char>)> {
    let i = find_char(id, '/') as int;
    let rest = id.skip(i + 1);
    let j = find_char(rest, '/') as int;
    if i >= id.len() || j >= rest.len() {
        None
    } else {
        let owner = id.take(i);
        let name = rest.take(j);
        let file = rest.skip(j + 1);
        if owner.len() == 0 || name.len() == 0 || file.len() == 0 {
            None
        } else {
            Some((owner + "/"@ + name, file))
        }
    }
}

/// Parses a composite model selection `<owner>/<name>/<file.gguf>` into the
/// repository `<owner>/<name>` and the file name.
pub fn parse_model_selection(model_id: &str) -> (r: Option<(String, String)>)
    ensures
        match spec_parse_model_selection(model_id@) {
            None => r is None,
            Some((repo, file)) => r matches Some((a, b)) && a@ == repo && b@ == file,
        },
{
    let cs = chars_of(model_id);
    assert(cs@.skip(0) =~= cs@);
    let i = find_slash(&cs, 0);
    if i >= cs.len() {
        return None;
    }
    let j = find_slash(&cs, i + 1);
    let ghost rest = cs@.skip(i + 1);
    assert(rest.skip(0) =~= rest);
    if j >= cs.len() {
        return None;
    }
    if i == 0 || j == i + 1 || j + 1 == cs.len() {
        return None;
    }
    let mut repo = slice_chars(&cs, 0, j);
    let file = slice_chars(&cs, j + 1, cs.len());
    proof {
        let jj = j - (i + 1);
        crate::command_text::lemma_find_char_hit(cs@, '/');
        assert(cs@[i as int] == '/');
        assert(cs@.take(i as int) + "/"@ + rest.take(jj) =~= cs@.subrange(0, j as int)) by {
            reveal_strlit("/");
        }
        assert(rest.skip(jj + 1) =~= cs@.subrange(j + 1, cs@.len() as int));
    }
    Some((string_from_chars(repo.as_slice()), string_from_chars(file.as_slice())))
}

/// Curated model ids that predate the model browser, with their repository
/// and known GGUF files.
pub open spec fn spec_legacy_model_files(id: Seq<char>) -> Option<(Seq<char>, Seq<Seq<char>>)> {
    if id == "qwen2.5-coder-0.5b-instruct"@ {
        Some(
            (
                "Qwen/Qwen2.5-Coder-0.5B-Instruct-GGUF"@,
                seq![
                    "qwen2.5-coder-0.5b-instruct-q4_k_m.gguf"@,
                    "qwen2.5-coder-0.5b-instruct-q8_0.gguf"@,
                ],
            ),
        )
    } else if id == "qwen2.5-coder-1.5b-instruct"@ {
        Some(
            (
                "Qwen/Qwen2.5-Coder-1.5B-Instruct-GGUF"@,
                seq![
                    "qwen2.5-coder-1.5b-instruct-q4_k_m.gguf"@,
                    "qwen2.5-coder-1.5b-instruct-q8_0.gguf"@,
                ],
            ),
        )
    } else if id == "smollm2-135m-instruct"@ {
        Some(
            (
                "lmstudio-community/SmolLM2-135M-Instruct-GGUF"@,
                seq!["SmolLM2-135M-Instruct-Q4_K_M.gguf"@, "SmolLM2-135M-Instruct-Q8_0.gguf"@],
            ),
        )
    } else {
        None
    }
}

/// The repository and known files of a legacy curated model id.
pub fn legacy_model_files(model_id: &str) -> (r: Option<(&'static str, Vec<&'static str>)>)
    ensures
        match spec_legacy_model_files(model_id@) {
            None => r is None,
            Some((repo, files)) => r matches Some((a, v)) && a@ == repo && v@.len() == files.len()
                && forall|k: int| 0 <= k < files.len() ==> (#[trigger] v@[k])@ == files[k],
        },
{
    if crate::text::str_eq(model_id, "qwen2.5-coder-0.5b-instruct") {
        Some(
            (
                "Qwen/Qwen2.5-Coder-0.5B-Instruct-GGUF",
                vec![
                    "qwen2.5-coder-0.5b-instruct-q4_k_m.gguf",
                    "qwen2.5-coder-0.5b-instruct-q8_0.gguf",
                ],
            ),
        )
    } else if crate::text::str_eq(model_id, "qwen2.5-coder-1.5b-instruct") {
        Some(
            (
                "Qwen/Qwen2.5-Coder-1.5B-Instruct-GGUF",
                vec![
                    "qwen2.5-coder-1.5b-instruct-q4_k_m.gguf",
                    "qwen2.5-coder-1.5b-instruct-q8_0.gguf",
                ],
            ),
        )
    } else if crate::text::str_eq(model_id, "smollm2-135m-instruct") {
        Some(
            (
                "lmstudio-community/SmolLM2-135M-Instruct-GGUF",
                vec!["SmolLM2-135M-Instruct-Q4_K_M.gguf", "SmolLM2-135M-Instruct-Q8_0.gguf"],
            ),
        )
    } else {
        None
    }
}

/// Download percentage: 0 when the total is unknown (zero), otherwise
/// `downloaded * 100 / total` (the product saturating), capped at 100.
pub open spec fn spec_percent(downloaded: u64, total: u64) -> u8 {
    if total == 0 {
        0
    } else {
        let product = if downloaded * 100 > u64::MAX {
            u64::MAX as int
        } else {
            downloaded * 100
        };
        let raw = product / (total as int);
        if raw > 100 {
            100
        } else {
            raw as u8
        }
    }
}

/// Download percentage for the progress events.
pub fn download_percent(downloaded: u64, total: u64) -> (r: u8)
    ensures
        r == spec_percent(downloaded, total),
        r <= 100,
{
    let product: u64 = match downloaded.checked_mul(100) {
        Some(p) => p,
        None => u64::MAX,
    };
    if total == 0 {
        return 0;
    }
    let raw = product / total;
    if raw > 100 {
        100
    } else {
        raw as u8
    }
}

/// Per-file progress inside a download event.
pub struct FileProgress {
    pub filename: String,
    pub bytes_completed: u64,
    pub total_bytes: u64,
}

/// The download events that move the progress bar.
pub enum DownloadEvent {
    /// The download starts; its total size.
    Start { total_bytes: u64 },
    /// Progress of the files being downloaded.
    Progress { files: Vec<FileProgress> },
    /// Progress of the whole download.
    AggregateProgress { bytes_completed: u64, total_bytes: u64 },
    /// Any other event; it changes nothing.
    Other,
}

/// The progress of one file's download.
pub struct DownloadProgressEmitter {
    pub filename: String,
    pub total_bytes: u64,
    pub downloaded_bytes: u64,
}

/// The file update concerns the tracked file: the names match, or it is the
/// only file of the event.
pub open spec fn tracks(state_name: Seq<char>, f: FileProgress, n_files: nat) -> bool {
    f.filename@ == state_name || n_files == 1
}

/// The state after applying per-file updates `files[0..k]` in order.
pub open spec fn after_files(
    name: Seq<char>,
    total: u64,
    downloaded: u64,
    files: Seq<FileProgress>,
    k: int,
) -> (u64, u64)
    decreases k,
{
    if k <= 0 {
        (total, downloaded)
    } else {
        let prev = after_files(name, total, downloaded, files, k - 1);
        let f = files[k - 1];
        if tracks(name, f, files.len()) {
            (if f.total_bytes > 0 {
                f.total_bytes
            } else {
                prev.0
            }, f.bytes_completed)
        } else {
            prev
        }
    }
}

/// The (total, downloaded) pair after one event, from the pair before it.
pub open spec fn state_after(name: Seq<char>, total: u64, downloaded: u64, event: DownloadEvent) -> (
    u64,
    u64,
) {
    match event {
        DownloadEvent::Start { total_bytes } => (total_bytes, downloaded),
        DownloadEvent::Progress { files } => after_files(
            name,
            total,
            downloaded,
            files@,
            files@.len() as int,
        ),
        DownloadEvent::AggregateProgress { bytes_completed, total_bytes } => (
            if total_bytes > 0 {
                total_bytes
            } else {
                total
            },
            bytes_completed,
        ),
        DownloadEvent::Other => (total, downloaded),
    }
}

impl DownloadProgressEmitter {
    /// A download of `filename` with nothing known yet.
    pub fn new(filename: String) -> (r: DownloadProgressEmitter)
        ensures
            r.filename == filename,
            r.total_bytes == 0,
            r.downloaded_bytes == 0,
    {
        DownloadProgressEmitter { filename, total_bytes: 0, downloaded_bytes: 0 }
    }

    /// The progress report for the current state.
    pub fn emit_progress(&self) -> (r: AiDownloadProgress)
        ensures
            r.filename == self.filename,
            r.percent == spec_percent(self.downloaded_bytes, self.total_bytes),
            r.bytes_downloaded == self.downloaded_bytes,
            r.total_bytes == self.total_bytes,
    {
        AiDownloadProgress {
            filename: self.filename.clone(),
            percent: download_percent(self.downloaded_bytes, self.total_bytes),
            bytes_downloaded: self.downloaded_bytes,
            total_bytes: self.total_bytes,
        }
    }

    /// Applies a download event and returns the report to emit, if any.
    /// A start sets the total; per-file progress of the tracked file (or of
    /// the only file) sets the downloaded bytes and a known total; aggregate
    /// progress sets the downloaded bytes and a known total. Other events
    /// change nothing and emit nothing.
    pub fn on_progress(&mut self, event: &DownloadEvent) -> (r: Option<AiDownloadProgress>)
        ensures
            final(self).filename == old(self).filename,
            (final(self).total_bytes, final(self).downloaded_bytes) == state_after(
                old(self).filename@,
                old(self).total_bytes,
                old(self).downloaded_bytes,
                *event,
            ),
            match *event {
                DownloadEvent::Other => r is None,
                _ => r matches Some(p) && p.filename == final(self).filename && p.percent
                    == spec_percent(final(self).downloaded_bytes, final(self).total_bytes)
                    && p.bytes_downloaded == final(self).downloaded_bytes && p.total_bytes
                    == final(self).total_bytes,
            },
    {
        match event {
            DownloadEvent::Start { total_bytes } => {
                self.total_bytes = *total_bytes;
                Some(self.emit_progress())
            },
            DownloadEvent::Progress { files } => {
                let n = files.len();
                let mut k: usize = 0;
                while k < n
                    invariant
                        n == files@.len(),
                        k <= n,
                        self.filename == old(self).filename,
                        (self.total_bytes, self.downloaded_bytes) == after_files(
                            old(self).filename@,
                            old(self).total_bytes,
                            old(self).downloaded_bytes,
                            files@,
                            k as int,
                        ),
                    decreases n - k,
                {
                    let f = &files[k];
                    if crate::text::str_eq(f.filename.as_str(), self.filename.as_str()) || n == 1 {
                        self.downloaded_bytes = f.bytes_completed;
                        if f.total_bytes > 0 {
                            self.total_bytes = f.total_bytes;
                        }
                    }
                    k += 1;
                }
                Some(self.emit_progress())
            },
            DownloadEvent::AggregateProgress { bytes_completed, total_bytes } => {
                self.downloaded_bytes = *bytes_completed;
                if *total_bytes > 0 {
                    self.total_bytes = *total_bytes;
                }
                Some(self.emit_progress())
            },
            DownloadEvent::Other => None,
        }
    }
}

/// The report sent once a download has finished.
pub fn download_finished(filename: String) -> (r: AiDownloadProgress)
    ensures
        r.filename == filename,
        r.percent == 100,
        r.bytes_downloaded == 0,
        r.total_bytes == 0,
{
    AiDownloadProgress { filename, percent: 100, bytes_downloaded: 0, total_bytes: 0 }
}

/// The search text for the Hub: trimmed, and no search when it is blank.
pub fn normalize_query(query: Option<String>) -> (r: Option<String>)
    ensures
        match query {
            None => r is None,
            Some(q) => if trim(q@).len() == 0 {
                r is None
            } else {
                r matches Some(t) && t@ == trim(q@)
            },
        },
{
    match query {
        None => None,
        Some(q) => {
            let cs = chars_of(q.as_str());
            let t = trim_chars(&cs);
            if t.len() == 0 {
                None
            } else {
                Some(string_from_chars(t.as_slice()))
            }
        },
    }
}

/// How many repositories a search returns: 50 by default, kept within
/// 1 to 100.
pub fn search_limit(limit: Option<u32>) -> (r: usize)
    ensures
        r == (match limit {
            None => 50,
            Some(l) => if l < 1 {
                1
            } else if l > 100 {
                100
            } else {
                l as int
            },
        }),
{
    let l = match limit {
        None => 50u32,
        Some(l) => l,
    };
    if l < 1 {
        1
    } else if l > 100 {
        100
    } else {
        l as usize
    }
}

/// A search hit, with unknown counts read as 0.
pub fn model_summary(id: String, downloads: Option<u64>, likes: Option<u64>) -> (r: HfModelSummary)
    ensures
        r.id == id,
        r.downloads == (match downloads {
            Some(d) => d,
            None => 0,
        }),
        r.likes == (match likes {
            Some(l) => l,
            None => 0,
        }),
{
    HfModelSummary {
        id,
        downloads: match downloads {
            Some(d) => d,
            None => 0,
        },
        likes: match likes {
            Some(l) => l,
            None => 0,
        },
    }
}

/// ASCII lower case of a character; other characters are unchanged.
pub open spec fn ascii_lower(c: char) -> char {
    if 'A' <= c <= 'Z' {
        ((c as u32) + 32) as char
    } else {
        c
    }
}

/// The path ends in `.gguf`, in any letter case.
pub open spec fn has_gguf_suffix(p: Seq<char>) -> bool {
    let n = p.len();
    n >= 5 && p[n - 5] == '.' && ascii_lower(p[n - 4]) == 'g' && ascii_lower(p[n - 3]) == 'g'
        && ascii_lower(p[n - 2]) == 'u' && ascii_lower(p[n - 1]) == 'f'
}

fn lower(c: char) -> (r: char)
    ensures
        r == ascii_lower(c),
{
    if 'A' <= c && c <= 'Z' {
        let u: u32 = (c as u32) + 32;
        let b: u8 = u as u8;
        b as char
    } else {
        c
    }
}

/// Whether a repository path names a GGUF file (`.gguf` in any case).
pub fn is_gguf_path(path: &str) -> (r: bool)
    ensures
        r == has_gguf_suffix(path@),
{
    let cs = chars_of(path);
    let n = cs.len();
    n >= 5 && cs[n - 5] == '.' && lower(cs[n - 4]) == 'g' && lower(cs[n - 3]) == 'g' && lower(
        cs[n - 2],
    ) == 'u' && lower(cs[n - 1]) == 'f'
}

/// The file name has the extension `gguf` (as `Path::extension` reads it:
/// the text after the last dot, when that dot does not start the name).
pub open spec fn has_gguf_extension(name: Seq<char>) -> bool {
    let n = name.len();
    n >= 6 && name[n - 5] == '.' && name[n - 4] == 'g' && name[n - 3] == 'g' && name[n - 2] == 'u'
        && name[n - 1] == 'f'
}

/// Whether a local file name has the extension `gguf`.
pub fn is_gguf_file_name(name: &str) -> (r: bool)
    ensures
        r == has_gguf_extension(name@),
{
    let cs = chars_of(name);
    let n = cs.len();
    n >= 6 && cs[n - 5] == '.' && cs[n - 4] == 'g' && cs[n - 3] == 'g' && cs[n - 2] == 'u' && cs[n
        - 1] == 'f'
}

/// A file entry of a repository tree.
pub struct RepoFileEntry {
    pub path: String,
    pub size: u64,
    /// Size of the LFS object, when the file is stored in LFS and it is
    /// known.
    pub lfs_size: Option<u64>,
}

/// The GGUF file an entry lists, with the LFS size when known.
pub fn repo_file_of(entry: &RepoFileEntry) -> (r: Option<HfModelRepoFile>)
    ensures
        has_gguf_suffix(entry.path@) ==> (r matches Some(f) && f.filename == entry.path
            && f.size_bytes == (match entry.lfs_size {
            Some(s) => s,
            None => entry.size,
        })),
        !has_gguf_suffix(entry.path@) ==> r is None,
{
    if is_gguf_path(entry.path.as_str()) {
        Some(
            HfModelRepoFile {
                filename: entry.path.clone(),
                size_bytes: match entry.lfs_size {
                    Some(s) => s,
                    None => entry.size,
                },
            },
        )
    } else {
        None
    }
}

/// The GGUF files a repository tree lists, in the order of the tree.
pub open spec fn gguf_files_of(entries: Seq<RepoFileEntry>) -> Seq<HfModelRepoFile>
    decreases entries.len(),
{
    if entries.len() == 0 {
        seq![]
    } else {
        let prev = gguf_files_of(entries.drop_last());
        let e = entries.last();
        if has_gguf_suffix(e.path@) {
            prev.push(
                HfModelRepoFile {
                    filename: e.path,
                    size_bytes: match e.lfs_size {
                        Some(s) => s,
                        None => e.size,
                    },
                },
            )
        } else {
            prev
        }
    }
}

/// The GGUF files of a repository tree, sorted by file name.
pub fn list_gguf_repo_files(entries: &Vec<RepoFileEntry>) -> (r: Vec<HfModelRepoFile>)
    ensures
        sorted_by_key(r@),
        r@.to_multiset() == gguf_files_of(entries@).to_multiset(),
        exists|pos: Seq<int>| stable_arrangement(r@, gguf_files_of(entries@), pos),
{
    let mut files: Vec<HfModelRepoFile> = Vec::new();
    let mut k: usize = 0;
    while k < entries.len()
        invariant
            k <= entries.len(),
            files@ == gguf_files_of(entries@.take(k as int)),
        decreases entries.len() - k,
    {
        proof {
            assert(entries@.take(k + 1).drop_last() =~= entries@.take(k as int));
        }
        match repo_file_of(&entries[k]) {
            Some(f) => files.push(f),
            None => {},
        }
        k += 1;
    }
    assert(entries@.take(entries.len() as int) =~= entries@);
    sort_by_key(files)
}

impl SortKey for AiModelFile {
    open spec fn key_le(self, other: Self) -> bool {
        text_le(self.filename@, other.filename@)
    }

    proof fn lemma_key_total(a: Self, b: Self) {
        lemma_text_le_total(a.filename@, b.filename@, 0);
    }

    proof fn lemma_key_trans(a: Self, b: Self, c: Self) {
        lemma_text_le_trans(a.filename@, b.filename@, c.filename@, 0);
    }

    fn key_le_exec(&self, other: &Self) -> (r: bool) {
        text_le_exec(self.filename.as_str(), other.filename.as_str())
    }
}

impl SortKey for HfModelRepoFile {
    open spec fn key_le(self, other: Self) -> bool {
        text_le(self.filename@, other.filename@)
    }

    proof fn lemma_key_total(a: Self, b: Self) {
        lemma_text_le_total(a.filename@, b.filename@, 0);
    }

    proof fn lemma_key_trans(a: Self, b: Self, c: Self) {
        lemma_text_le_trans(a.filename@, b.filename@, c.filename@, 0);
    }

    fn key_le_exec(&self, other: &Self) -> (r: bool) {
        text_le_exec(self.filename.as_str(), other.filename.as_str())
    }
}

/// The downloaded models, sorted by their relative path.
pub fn sort_model_files(models: Vec<AiModelFile>) -> (r: Vec<AiModelFile>)
    ensures
        sorted_by_key(r@),
        r@.to_multiset() == models@.to_multiset(),
        exists|pos: Seq<int>| stable_arrangement(r@, models@, pos),
{
    sort_by_key(models)
}

/// The path segments joined with `/`.
pub open spec fn join_slash(parts: Seq<Seq<char>>) -> Seq<char>
    decreases parts.len(),
{
    if parts.len() == 0 {
        seq![]
    } else if parts.len() == 1 {
        parts[0]
    } else {
        join_slash(parts.drop_last()) + "/"@ + parts.last()
    }
}

/// The relative path of a model file below the models directory, from its
/// path components.
pub fn relative_model_path(parts: &Vec<String>) -> (r: String)
    ensures
        r@ == join_slash(parts@.map_values(|p: String| p@)),
{
    let ghost views = parts@.map_values(|p: String| p@);
    let mut out: Vec<char> = Vec::new();
    let mut k: usize = 0;
    while k < parts.len()
        invariant
            k <= parts.len(),
            views == parts@.map_values(|p: String| p@),
            out@ == join_slash(views.take(k as int)),
        decreases parts.len() - k,
    {
        proof {
            assert(views.take(k + 1).drop_last() =~= views.take(k as int));
            assert(views.take(k + 1).last() == parts@[k as int]@);
        }
        if k > 0 {
            crate::text::push_str_chars(&mut out, "/");
        }
        crate::text::push_str_chars(&mut out, parts[k].as_str());
        proof {
            if k == 0 {
                assert(views.take(1) =~= seq![parts@[0]@]);
            }
        }
        k += 1;
    }
    assert(views.take(parts.len() as int) =~= views);
    string_from_chars(out.as_slice())
}

/// The `(repository, file)` pairs that a model selection may have left in
/// the flat layout: the composite selection's pair, else the files of a
/// legacy curated id, else none.
pub open spec fn relocation_targets_of(model_id: Seq<char>) -> Seq<(Seq<char>, Seq<char>)> {
    match spec_parse_model_selection(model_id) {
        Some(pair) => seq![pair],
        None => match spec_legacy_model_files(model_id) {
            Some((repo, files)) => Seq::new(files.len(), |k: int| (repo, files[k])),
            None => seq![],
        },
    }
}

/// The files to move from the flat layout into the per-repository layout
/// for a model selection.
pub fn relocation_targets(model_id: &str) -> (r: Vec<(String, String)>)
    ensures
        r@.len() == relocation_targets_of(model_id@).len(),
        forall|k: int|
            0 <= k < r@.len() ==> (#[trigger] r@[k]).0@ == relocation_targets_of(model_id@)[k].0
                && r@[k].1@ == relocation_targets_of(model_id@)[k].1,
{
    let mut out: Vec<(String, String)> = Vec::new();
    match parse_model_selection(model_id) {
        Some(pair) => {
            out.push(pair);
            return out;
        },
        None => {},
    }
    match legacy_model_files(model_id) {
        Some((repo, files)) => {
            let ghost target = relocation_targets_of(model_id@);
            let mut k: usize = 0;
            while k < files.len()
                invariant
                    k <= files.len(),
                    target == relocation_targets_of(model_id@),
                    target.len() == files@.len(),
                    out@.len() == k,
                    forall|j: int|
                        0 <= j < k ==> (#[trigger] out@[j]).0@ == target[j].0 && out@[j].1@
                            == target[j].1,
                    forall|j: int| 0 <= j < files@.len() ==> target[j] == (repo@, files@[j]@),
                decreases files.len() - k,
            {
                out.push((String::from_str(repo), String::from_str(files[k])));
                k += 1;
            }
        },
        None => {},
    }
    out
}

/// What to do with a model file found in the flat layout.
pub enum RelocationStep {
    /// There is no such file: nothing to do.
    Skip,
    /// The per-repository copy exists already: delete the flat one.
    RemoveFlat,
    /// Move the flat file into the repository directory.
    Move,
}

/// The step for one file: nothing unless the flat file exists; an existing
/// destination is kept and the flat copy deleted; otherwise the file moves.
pub fn relocation_step(flat_is_file: bool, dest_exists: bool) -> (r: RelocationStep)
    ensures
        !flat_is_file ==> r is Skip,
        flat_is_file && dest_exists ==> r is RemoveFlat,
        flat_is_file && !dest_exists ==> r is Move,
{
    if !flat_is_file {
        RelocationStep::Skip
    } else if dest_exists {
        RelocationStep::RemoveFlat
    } else {
        RelocationStep::Move
    }
}

/// The relative path under which a downloaded model is listed selects that
/// model again: `<owner>/<name>/<file>` parses to the repository
/// `<owner>/<name>` and the file, and the repository splits back into the
/// owner and name directories it was downloaded to (owner and name hold no
/// `/`; all three parts are non-empty).
pub proof fn law_listed_path_selects_model(owner: Seq<char>, name: Seq<char>, file: Seq<char>)
    requires
        owner.len() > 0,
        name.len() > 0,
        file.len() > 0,
        !owner.contains('/'),
        !name.contains('/'),
    ensures
        spec_parse_model_selection(join_slash(seq![owner, name, file])) == Some(
            (owner + "/"@ + name, file),
        ),
        spec_split_id(owner + "/"@ + name) == (owner, name),
{
    reveal_strlit("/");
    reveal_with_fuel(join_slash, 3);
    let id = owner + "/"@ + name + "/"@ + file;
    let parts = seq![owner, name, file];
    assert(parts.drop_last().drop_last() =~= seq![owner]);
    assert(parts.drop_last() =~= seq![owner, name]);
    assert(join_slash(parts) =~= id);
    let i = owner.len() as int;
    assert forall|k: int| 0 <= k < i implies #[trigger] id[k] != '/' by {
        assert(id[k] == owner[k]);
    }
    crate::command_text::lemma_find_char(id, '/', i);
    let rest = id.skip(i + 1);
    assert(rest =~= name + "/"@ + file);
    let j = name.len() as int;
    assert forall|k: int| 0 <= k < j implies #[trigger] rest[k] != '/' by {
        assert(rest[k] == name[k]);
    }
    crate::command_text::lemma_find_char(rest, '/', j);
    assert(id.take(i) =~= owner);
    assert(rest.take(j) =~= name);
    assert(rest.skip(j + 1) =~= file);
    let repo = owner + "/"@ + name;
    assert forall|k: int| 0 <= k < i implies #[trigger] repo[k] != '/' by {
        assert(repo[k] == owner[k]);
    }
    crate::command_text::lemma_find_char(repo, '/', i);
    assert(repo.take(i) =~= owner);
    assert(repo.skip(i + 1) =~= name);
}

} // verus!

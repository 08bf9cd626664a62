//! SFTP-side computations: entry and metadata records, child paths, the
//! read buffer size, the patch written by an offset write, and error texts.
use vstd::prelude::*;
use crate::sorting::{SortKey, lemma_text_le_total, lemma_text_le_trans, text_le, text_le_exec};
use crate::text::{concat2, push_str_chars, string_from_chars};

verus! {

/// An entry of a remote directory listing.
pub struct SftpEntry {
    pub name: String,
    pub path: String,
    pub is_dir: bool,
    pub is_symlink: bool,
    pub size: u64,
    /// ISO 8601 modification time.
    pub modified: Option<String>,
    /// Unix permission bits.
    pub permissions: u32,
}

/// Metadata of a remote file or directory.
pub struct SftpMetadata {
    pub is_dir: bool,
    pub is_symlink: bool,
    pub size: u64,
    /// ISO 8601 modification time.
    pub modified: Option<String>,
    /// ISO 8601 access time.
    pub accessed: Option<String>,
    /// Unix permission bits.
    pub permissions: u32,
    pub owner: Option<u32>,
    pub group: Option<u32>,
}

/// Why an SFTP command failed.
pub enum SftpError {
    Sftp(String),
    Ssh(String),
    Io(String),
    SessionNotFound(String),
    AlreadyConnected(String),
}

impl SftpError {
    /// The text the error displays as.
    pub open spec fn text(&self) -> Seq<char> {
        match self {
            SftpError::Sftp(m) => "SFTP error: "@ + m@,
            SftpError::Ssh(m) => "SSH error: "@ + m@,
            SftpError::Io(m) => "I/O error: "@ + m@,
            SftpError::SessionNotFound(m) => "SFTP session not found for SSH session: "@ + m@,
            SftpError::AlreadyConnected(m) => "SFTP already connected for SSH session: "@ + m@,
        }
    }

    /// The text the error displays as.
    pub fn message(&self) -> (r: String)
        ensures
            r@ == self.text(),
    {
        match self {
            SftpError::Sftp(m) => concat2("SFTP error: ", m.as_str()),
            SftpError::Ssh(m) => concat2("SSH error: ", m.as_str()),
            SftpError::Io(m) => concat2("I/O error: ", m.as_str()),
            SftpError::SessionNotFound(m) => concat2(
                "SFTP session not found for SSH session: ",
                m.as_str(),
            ),
            SftpError::AlreadyConnected(m) => concat2(
                "SFTP already connected for SSH session: ",
                m.as_str(),
            ),
        }
    }
}

/// `dir` without its trailing slashes.
pub open spec fn trim_trailing_slashes(dir: Seq<char>) -> Seq<char>
    decreases dir.len(),
{
    if dir.len() > 0 && dir.last() == '/' {
        trim_trailing_slashes(dir.drop_last())
    } else {
        dir
    }
}

/// Trailing slashes can be dropped one at a time.
proof fn lemma_trim_slashes_take(s: Seq<char>, j: int)
    requires
        0 <= j <= s.len(),
        forall|k: int| j <= k < s.len() ==> #[trigger] s[k] == '/',
    ensures
        trim_trailing_slashes(s) == trim_trailing_slashes(s.take(j)),
    decreases s.len() - j,
{
    if j < s.len() {
        assert(s.drop_last().take(j) =~= s.take(j));
        lemma_trim_slashes_take(s.drop_last(), j);
    } else {
        assert(s.take(j) =~= s);
    }
}

/// The path of an entry in a directory listing: the directory without
/// trailing slashes, a slash, the entry name.
pub fn child_path(dir: &str, name: &str) -> (r: String)
    ensures
        r@ == trim_trailing_slashes(dir@) + "/"@ + name@,
{
    let cs = crate::text::chars_of(dir);
    let mut j = cs.len();
    while j > 0 && cs[j - 1] == '/'
        invariant
            cs@ == dir@,
            j <= cs.len(),
            forall|k: int| j <= k < cs.len() ==> #[trigger] cs@[k] == '/',
        decreases j,
    {
        j -= 1;
    }
    proof {
        lemma_trim_slashes_take(cs@, j as int);
        if j > 0 {
            assert(cs@.take(j as int).last() == cs@[j - 1]);
        }
    }
    let mut out = crate::text::slice_chars(&cs, 0, j);
    assert(out@ =~= cs@.take(j as int));
    push_str_chars(&mut out, "/");
    push_str_chars(&mut out, name);
    string_from_chars(out.as_slice())
}

/// The size of the buffer a ranged read asks for: the requested length,
/// capped at `usize::MAX`.
pub fn read_buffer_len(length: u64) -> (r: usize)
    ensures
        length <= usize::MAX ==> r == length,
        length > usize::MAX ==> r == usize::MAX,
{
    if length <= usize::MAX as u64 {
        length as usize
    } else {
        usize::MAX
    }
}

/// The byte at `i` of a file after writing `data` at `offset`: the written
/// byte inside the written range, else the old byte, else zero (a gap past
/// the old end).
pub open spec fn patched_byte(existing: Seq<u8>, data: Seq<u8>, offset: int, i: int) -> u8 {
    if offset <= i < offset + data.len() {
        data[i - offset]
    } else if i < existing.len() {
        existing[i]
    } else {
        0u8
    }
}

/// The length of a file after writing `data` at `offset`.
pub open spec fn patched_len(existing: Seq<u8>, data: Seq<u8>, offset: int) -> int {
    if offset + data.len() >= existing.len() {
        offset + data.len()
    } else {
        existing.len() as int
    }
}

/// The content of a file after writing `data` at `offset` into its old
/// content `existing`: the file grows to cover the write, a gap past the old
/// end is zero-filled, and bytes outside the written range are kept.
pub fn patch_content(existing: &[u8], data: &[u8], offset: u64) -> (r: Vec<u8>)
    requires
        offset + data@.len() <= usize::MAX,
    ensures
        r@.len() == patched_len(existing@, data@, offset as int),
        forall|i: int|
            0 <= i < r@.len() ==> #[trigger] r@[i] == patched_byte(
                existing@,
                data@,
                offset as int,
                i,
            ),
{
    let off = offset as usize;
    let data_end = off + data.len();
    let end = if data_end >= existing.len() {
        data_end
    } else {
        existing.len()
    };
    let mut r: Vec<u8> = Vec::new();
    let mut i: usize = 0;
    while i < end
        invariant
            off == offset,
            data_end == off + data@.len(),
            end == patched_len(existing@, data@, offset as int),
            i <= end,
            r@.len() == i,
            forall|k: int|
                0 <= k < i ==> #[trigger] r@[k] == patched_byte(
                    existing@,
                    data@,
                    offset as int,
                    k,
                ),
        decreases end - i,
    {
        let b = if off <= i && i < data_end {
            data[i - off]
        } else if i < existing.len() {
            existing[i]
        } else {
            0u8
        };
        r.push(b);
        i += 1;
    }
    r
}

/// The content a write leaves in a remote file whose old content is
/// `existing`: a write at offset 0 creates or truncates the file, which then
/// holds exactly `data`; a write at a later offset patches the old content
/// (see `patch_content`).
pub fn written_content(existing: &[u8], data: &[u8], offset: u64) -> (r: Vec<u8>)
    requires
        offset + data@.len() <= usize::MAX,
    ensures
        offset == 0 ==> r@ == data@,
        offset > 0 ==> r@.len() == patched_len(existing@, data@, offset as int) && forall|i: int|
            0 <= i < r@.len() ==> #[trigger] r@[i] == patched_byte(
                existing@,
                data@,
                offset as int,
                i,
            ),
{
    if offset == 0 {
        let mut r: Vec<u8> = Vec::new();
        let mut i: usize = 0;
        while i < data.len()
            invariant
                i <= data@.len(),
                r@ == data@.take(i as int),
            decreases data.len() - i,
        {
            r.push(data[i]);
            proof {
                assert(data@.take(i + 1) =~= data@.take(i as int).push(data@[i as int]));
            }
            i += 1;
        }
        assert(data@.take(data@.len() as int) =~= data@);
        r
    } else {
        patch_content(existing, data, offset)
    }
}

/// What `str::to_lowercase` returns for a text (Unicode lower case, which
/// depends on the text alone).
pub uninterp spec fn unicode_lowercase(s: Seq<char>) -> Seq<char>;

/// Calls `str::to_lowercase`.
#[verifier::external_body]
fn lowercase(s: &str) -> (r: String)
    ensures
        r@ == unicode_lowercase(s@),
{
    s.to_lowercase()
}

/// Listing order: directories first, then by lower-cased name.
impl SortKey for SftpEntry {
    open spec fn key_le(self, other: Self) -> bool {
        if self.is_dir != other.is_dir {
            self.is_dir
        } else {
            text_le(unicode_lowercase(self.name@), unicode_lowercase(other.name@))
        }
    }

    proof fn lemma_key_total(a: Self, b: Self) {
        lemma_text_le_total(unicode_lowercase(a.name@), unicode_lowercase(b.name@), 0);
    }

    proof fn lemma_key_trans(a: Self, b: Self, c: Self) {
        if a.is_dir == b.is_dir && b.is_dir == c.is_dir {
            lemma_text_le_trans(
                unicode_lowercase(a.name@),
                unicode_lowercase(b.name@),
                unicode_lowercase(c.name@),
                0,
            );
        }
    }

    fn key_le_exec(&self, other: &Self) -> (r: bool) {
        if self.is_dir != other.is_dir {
            self.is_dir
        } else {
            let a = lowercase(self.name.as_str());
            let b = lowercase(other.name.as_str());
            text_le_exec(a.as_str(), b.as_str())
        }
    }
}

/// A listing entry named `name` in directory `dir`: its path is the child
/// path, its modification time the ISO 8601 text of `mtime`, and missing
/// permissions read as 0.
pub fn listing_entry(
    dir: &str,
    name: String,
    is_dir: bool,
    is_symlink: bool,
    size: u64,
    mtime: Option<u32>,
    permissions: Option<u32>,
) -> (r: SftpEntry)
    ensures
        r.name == name,
        r.path@ == trim_trailing_slashes(dir@) + "/"@ + name@,
        r.is_dir == is_dir,
        r.is_symlink == is_symlink,
        r.size == size,
        match mtime {
            Some(t) => r.modified matches Some(m) && crate::time::is_iso_of_secs(t as int, m@),
            None => r.modified is None,
        },
        r.permissions == (match permissions {
            Some(p) => p,
            None => 0,
        }),
{
    let path = child_path(dir, name.as_str());
    SftpEntry {
        name,
        path,
        is_dir,
        is_symlink,
        size,
        modified: crate::time::mtime_to_iso8601(mtime),
        permissions: match permissions {
            Some(p) => p,
            None => 0,
        },
    }
}

/// The metadata record of a remote path: times as ISO 8601 text when known,
/// missing permissions read as 0.
pub fn metadata_record(
    is_dir: bool,
    is_symlink: bool,
    size: u64,
    mtime: Option<u32>,
    atime: Option<u32>,
    permissions: Option<u32>,
    owner: Option<u32>,
    group: Option<u32>,
) -> (r: SftpMetadata)
    ensures
        r.is_dir == is_dir,
        r.is_symlink == is_symlink,
        r.size == size,
        match mtime {
            Some(t) => r.modified matches Some(m) && crate::time::is_iso_of_secs(t as int, m@),
            None => r.modified is None,
        },
        match atime {
            Some(t) => r.accessed matches Some(m) && crate::time::is_iso_of_secs(t as int, m@),
            None => r.accessed is None,
        },
        r.permissions == (match permissions {
            Some(p) => p,
            None => 0,
        }),
        r.owner == owner,
        r.group == group,
{
    SftpMetadata {
        is_dir,
        is_symlink,
        size,
        modified: crate::time::mtime_to_iso8601(mtime),
        accessed: crate::time::mtime_to_iso8601(atime),
        permissions: match permissions {
            Some(p) => p,
            None => 0,
        },
        owner,
        group,
    }
}

} // verus!

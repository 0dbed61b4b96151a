use vstd::prelude::*;
use vstd::string::*;

verus! {

/// Compression applied to a file dataset, read from its last filename suffix.
#[derive(Clone, Copy, Debug, PartialEq, Eq, Structural)]
pub enum Compression {
    Uncompressed,
    Gzip,
    Bzip2,
    Xz,
    Zstd,
}

/// A file path together with its content-format suffix and its compression.
#[derive(Clone, Debug)]
pub struct FileOps {
    pub filename: String,
    pub ext: String,
    pub compression: Compression,
}

/// Where a dataset comes from.
#[derive(Clone, Debug)]
pub enum DatasetConn {
    Postgres(String),
    CSv(FileOps),
    Parquet(String),
    NdJson(FileOps),
}

/// Why a source string does not resolve to a dataset source.
#[derive(Clone, Debug)]
pub enum ConnError {
    /// The string has no `.` suffix at all.
    NoSuffix,
    /// The suffix chain does not resolve to a known format and compression;
    /// the last suffix is carried.
    UnsupportedFormat(String),
}

pub open spec fn conn_message_of(s: Seq<char>, e: ConnError) -> Seq<char> {
    match e {
        ConnError::NoSuffix => "Invalid Connection string: "@ + s,
        ConnError::UnsupportedFormat(x) => "Invalid file extension: "@ + x@,
    }
}

impl ConnError {
    /// The diagnostic line shown for source string `s` refused with this error.
    pub fn message(&self, s: &str) -> (r: String)
        ensures
            r@ == conn_message_of(s@, *self),
    {
        match self {
            ConnError::NoSuffix => {
                let mut m = String::from_str("Invalid Connection string: ");
                m.append(s);
                m
            },
            ConnError::UnsupportedFormat(x) => {
                let mut m = String::from_str("Invalid file extension: ");
                m.append(x.as_str());
                m
            },
        }
    }
}

pub open spec fn has_prefix(s: Seq<char>, p: Seq<char>) -> bool {
    p.len() <= s.len() && s.subrange(0, p.len() as int) == p
}

pub open spec fn has_suffix(s: Seq<char>, p: Seq<char>) -> bool {
    p.len() <= s.len() && s.subrange(s.len() - p.len(), s.len() as int) == p
}

/// Index of the last `.` in `s`, or -1 when there is none.
pub open spec fn last_dot(s: Seq<char>) -> int
    decreases s.len(),
{
    if s.len() == 0 {
        -1
    } else if s.last() == '.' {
        s.len() - 1
    } else {
        last_dot(s.drop_last())
    }
}

/// The text after the last `.` of `s`.
pub open spec fn last_suffix(s: Seq<char>) -> Seq<char> {
    s.subrange(last_dot(s) + 1, s.len() as int)
}

pub open spec fn compression_of(t: Seq<char>) -> Option<Compression> {
    if t == "gz"@ {
        Some(Compression::Gzip)
    } else if t == "bz2"@ {
        Some(Compression::Bzip2)
    } else if t == "xz"@ {
        Some(Compression::Xz)
    } else if t == "zstd"@ {
        Some(Compression::Zstd)
    } else {
        None
    }
}

pub open spec fn is_json_format(t: Seq<char>) -> bool {
    t == "json"@ || t == "jsonl"@ || t == "ndjson"@
}

pub open spec fn is_format(t: Seq<char>) -> bool {
    t == "csv"@ || is_json_format(t)
}

/// The content format and compression of a file name: when the last suffix
/// names a compression, the suffix before it is the format; otherwise the
/// last suffix is the format and nothing is compressed.
pub open spec fn file_source(s: Seq<char>) -> Option<(Seq<char>, Compression)> {
    let d = last_dot(s);
    if d < 0 {
        None
    } else {
        match compression_of(last_suffix(s)) {
            Some(c) => {
                let p = s.subrange(0, d);
                if last_dot(p) < 0 || !is_format(last_suffix(p)) {
                    None
                } else {
                    Some((last_suffix(p), c))
                }
            },
            None => if is_format(last_suffix(s)) {
                Some((last_suffix(s), Compression::Uncompressed))
            } else {
                None
            },
        }
    }
}

pub open spec fn is_postgres(s: Seq<char>) -> bool {
    has_prefix(s, "postgres://"@)
}

pub open spec fn is_parquet(s: Seq<char>) -> bool {
    has_suffix(s, ".parquet"@)
}

/// Whether `s` resolves to some dataset source.
pub open spec fn accepts(s: Seq<char>) -> bool {
    is_postgres(s) || is_parquet(s) || file_source(s) is Some
}

pub open spec fn file_ops_for(o: FileOps, s: Seq<char>, ext: Seq<char>, c: Compression) -> bool {
    o.filename@ == s && o.ext@ == ext && o.compression == c
}

/// `c` is the source that `s` resolves to.
pub open spec fn conn_for(s: Seq<char>, c: DatasetConn) -> bool {
    if is_postgres(s) {
        c matches DatasetConn::Postgres(u) && u@ == s
    } else if is_parquet(s) {
        c matches DatasetConn::Parquet(p) && p@ == s
    } else {
        match file_source(s) {
            Some((ext, comp)) => if ext == "csv"@ {
                c matches DatasetConn::CSv(o) && file_ops_for(o, s, ext, comp)
            } else {
                c matches DatasetConn::NdJson(o) && file_ops_for(o, s, ext, comp)
            },
            None => false,
        }
    }
}

/// `e` is the error reported for a string that resolves to no source.
pub open spec fn error_for(s: Seq<char>, e: ConnError) -> bool {
    if last_dot(s) < 0 {
        e is NoSuffix
    } else {
        e matches ConnError::UnsupportedFormat(x) && x@ == last_suffix(s)
    }
}

proof fn lemma_last_dot_bounds(s: Seq<char>)
    ensures
        -1 <= last_dot(s) < s.len(),
        last_dot(s) >= 0 ==> s[last_dot(s)] == '.',
    decreases s.len(),
{
    if s.len() > 0 && s.last() != '.' {
        lemma_last_dot_bounds(s.drop_last());
    }
}

pub open spec fn dot_free(t: Seq<char>) -> bool {
    forall|i: int| 0 <= i < t.len() ==> t[i] != '.'
}

proof fn lemma_last_dot_append(a: Seq<char>, t: Seq<char>)
    requires
        dot_free(t),
    ensures
        last_dot(a + seq!['.'] + t) == a.len(),
        last_suffix(a + seq!['.'] + t) =~= t,
        (a + seq!['.'] + t).subrange(0, a.len() as int) =~= a,
    decreases t.len(),
{
    let s = a + seq!['.'] + t;
    if t.len() > 0 {
        assert(s.last() == t.last());
        assert(s.drop_last() =~= a + seq!['.'] + t.drop_last());
        lemma_last_dot_append(a, t.drop_last());
    } else {
        assert(s.last() == '.');
    }
}

proof fn lemma_literals()
    ensures
        dot_free("csv"@),
        dot_free("json"@),
        dot_free("jsonl"@),
        dot_free("ndjson"@),
        dot_free("gz"@),
        dot_free("bz2"@),
        dot_free("xz"@),
        dot_free("zstd"@),
        compression_of("csv"@) is None,
        compression_of("json"@) is None,
        compression_of("jsonl"@) is None,
        compression_of("ndjson"@) is None,
        ".parquet"@.len() == 8,
        ".parquet"@[7] == 't',
        "csv"@.len() == 3,
        "csv"@[2] == 'v',
        "gz"@.len() == 2 && "gz"@[1] == 'z',
        "bz2"@.len() == 3 && "bz2"@[2] == '2',
        "xz"@.len() == 2 && "xz"@[1] == 'z',
        "zstd"@.len() == 4 && "zstd"@[3] == 'd',
{
    reveal_strlit("csv");
    reveal_strlit("json");
    reveal_strlit("jsonl");
    reveal_strlit("ndjson");
    reveal_strlit("gz");
    reveal_strlit("bz2");
    reveal_strlit("xz");
    reveal_strlit("zstd");
    reveal_strlit(".parquet");
    assert("csv"@[0] == 'c' && "json"@[0] == 'j' && "jsonl"@[0] == 'j' && "ndjson"@[0] == 'n');
    assert("gz"@[0] == 'g' && "bz2"@[0] == 'b' && "xz"@[0] == 'x' && "zstd"@[0] == 'z');
}

/// A name `<stem>.<format>.<compression>`, with a format among csv, json,
/// jsonl, ndjson and a compression among gz, bz2, xz, zstd, resolves to that
/// format with that compression (unless it is a `postgres://` string).
pub proof fn lemma_compressed_file_suffix(stem: Seq<char>, fmt: Seq<char>, comp: Seq<char>)
    requires
        is_format(fmt),
        compression_of(comp) is Some,
        !is_postgres(stem + seq!['.'] + fmt + seq!['.'] + comp),
    ensures
        ({
            let s = stem + seq!['.'] + fmt + seq!['.'] + comp;
            &&& accepts(s)
            &&& !is_parquet(s)
            &&& file_source(s) == Some((fmt, compression_of(comp)->0))
        }),
{
    lemma_literals();
    let a = stem + seq!['.'] + fmt;
    let s = a + seq!['.'] + comp;
    assert(s =~= stem + seq!['.'] + fmt + seq!['.'] + comp);
    lemma_last_dot_append(a, comp);
    lemma_last_dot_append(stem, fmt);
    assert(s.subrange(0, last_dot(s)) =~= a);
    assert(s[s.len() - 1] == comp[comp.len() - 1]);
    if is_parquet(s) {
        assert(s.subrange(s.len() - 8, s.len() as int)[7] == s[s.len() - 1]);
    }
}

/// A name `<stem>.csv` resolves to an uncompressed delimited-text file
/// (unless it is a `postgres://` string).
pub proof fn lemma_plain_csv_suffix(stem: Seq<char>)
    requires
        !is_postgres(stem + seq!['.'] + "csv"@),
    ensures
        ({
            let s = stem + seq!['.'] + "csv"@;
            &&& accepts(s)
            &&& !is_parquet(s)
            &&& file_source(s) == Some(("csv"@, Compression::Uncompressed))
        }),
{
    lemma_literals();
    let s = stem + seq!['.'] + "csv"@;
    lemma_last_dot_append(stem, "csv"@);
    assert(s[s.len() - 1] == 'v');
    if is_parquet(s) {
        assert(s.subrange(s.len() - 8, s.len() as int)[7] == s[s.len() - 1]);
    }
}

/// A name ending in `.parquet` is a columnar file, whatever suffixes stand
/// before (unless it is a `postgres://` string).
pub proof fn lemma_parquet_suffix(s: Seq<char>, c: DatasetConn)
    requires
        is_parquet(s),
        !is_postgres(s),
        conn_for(s, c),
    ensures
        accepts(s),
        c matches DatasetConn::Parquet(p) && p@ == s,
{
}

/// A `postgres://` string is a relational source, whatever its suffix.
pub proof fn lemma_postgres_scheme(s: Seq<char>, c: DatasetConn)
    requires
        is_postgres(s),
        conn_for(s, c),
    ensures
        accepts(s),
        c matches DatasetConn::Postgres(u) && u@ == s,
{
}

/// A string that is neither a `postgres://` string nor a `.parquet` name and
/// ends in no `.<format>.<compression>` nor `.<format>` chain is rejected.
pub proof fn lemma_other_suffix_rejected(s: Seq<char>)
    requires
        !is_postgres(s),
        !is_parquet(s),
        forall|f: Seq<char>, c: Seq<char>|
            is_format(f) && compression_of(c) is Some ==> !has_suffix(
                s,
                seq!['.'] + f + seq!['.'] + c,
            ),
        forall|f: Seq<char>| is_format(f) ==> !has_suffix(s, seq!['.'] + f),
    ensures
        !accepts(s),
{
    lemma_literals();
    let d = last_dot(s);
    if d >= 0 {
        lemma_last_dot_bounds(s);
        let last = last_suffix(s);
        assert(s =~= s.subrange(0, d) + seq!['.'] + last);
        match compression_of(last) {
            Some(c) => {
                let p = s.subrange(0, d);
                if last_dot(p) >= 0 && is_format(last_suffix(p)) {
                    lemma_last_dot_bounds(p);
                    let f = last_suffix(p);
                    assert(p =~= p.subrange(0, last_dot(p)) + seq!['.'] + f);
                    assert(s.subrange(s.len() - (f.len() + last.len() + 2), s.len() as int)
                        =~= seq!['.'] + f + seq!['.'] + last);
                }
            },
            None => {
                if is_format(last) {
                    assert(s.subrange(s.len() - (last.len() + 1), s.len() as int) =~= seq!['.']
                        + last);
                }
            },
        }
    }
}

fn str_starts_with(s: &str, p: &str) -> (r: bool)
    ensures
        r == has_prefix(s@, p@),
{
    let n = s.unicode_len();
    let m = p.unicode_len();
    if m > n {
        return false;
    }
    let mut i: usize = 0;
    while i < m
        invariant
            i <= m <= n,
            n == s@.len(),
            m == p@.len(),
            forall|j: int| 0 <= j < i ==> s@[j] == p@[j],
        decreases m - i,
    {
        if s.get_char(i) != p.get_char(i) {
            assert(s@.subrange(0, m as int)[i as int] == s@[i as int]);
            return false;
        }
        i = i + 1;
    }
    assert(s@.subrange(0, m as int) =~= p@);
    true
}

fn str_ends_with(s: &str, p: &str) -> (r: bool)
    ensures
        r == has_suffix(s@, p@),
{
    let n = s.unicode_len();
    let m = p.unicode_len();
    if m > n {
        return false;
    }
    let off = n - m;
    let mut i: usize = 0;
    while i < m
        invariant
            i <= m <= n,
            off == n - m,
            n == s@.len(),
            m == p@.len(),
            forall|j: int| 0 <= j < i ==> s@[off + j] == p@[j],
        decreases m - i,
    {
        if s.get_char(off + i) != p.get_char(i) {
            assert(s@.subrange(off as int, n as int)[i as int] == s@[off + i]);
            return false;
        }
        i = i + 1;
    }
    assert(s@.subrange(off as int, n as int) =~= p@);
    true
}

pub(crate) fn str_eq(a: &str, b: &str) -> (r: bool)
    ensures
        r == (a@ == b@),
{
    if a.unicode_len() != b.unicode_len() {
        return false;
    }
    let r = str_starts_with(a, b);
    assert(a@.subrange(0, b@.len() as int) =~= a@);
    r
}

/// Position of the last `.` among the first `end` characters of `s`.
fn last_dot_before(s: &str, end: usize) -> (r: Option<usize>)
    requires
        end <= s@.len(),
    ensures
        match r {
            Some(i) => last_dot(s@.subrange(0, end as int)) == i as int,
            None => last_dot(s@.subrange(0, end as int)) == -1,
        },
{
    let mut i = end;
    while i > 0
        invariant
            i <= end <= s@.len(),
            last_dot(s@.subrange(0, end as int)) == last_dot(s@.subrange(0, i as int)),
        decreases i,
    {
        if s.get_char(i - 1) == '.' {
            return Some(i - 1);
        }
        assert(s@.subrange(0, i as int).drop_last() =~= s@.subrange(0, i - 1));
        i = i - 1;
    }
    None
}

fn compression_of_str(t: &str) -> (r: Option<Compression>)
    ensures
        r == compression_of(t@),
{
    if str_eq(t, "gz") {
        Some(Compression::Gzip)
    } else if str_eq(t, "bz2") {
        Some(Compression::Bzip2)
    } else if str_eq(t, "xz") {
        Some(Compression::Xz)
    } else if str_eq(t, "zstd") {
        Some(Compression::Zstd)
    } else {
        None
    }
}

/// Builds the file source of `s` with content format `ext`, or reports
/// `last` as unsupported when `ext` names no known format.
fn file_conn(s: &str, ext: &str, compression: Compression, last: &str) -> (r: Result<
    DatasetConn,
    ConnError,
>)
    ensures
        is_format(ext@) ==> (r matches Ok(c) && if ext@ == "csv"@ {
            c matches DatasetConn::CSv(o) && file_ops_for(o, s@, ext@, compression)
        } else {
            c matches DatasetConn::NdJson(o) && file_ops_for(o, s@, ext@, compression)
        }),
        !is_format(ext@) ==> (r matches Err(ConnError::UnsupportedFormat(x)) && x@ == last@),
{
    let opts = FileOps {
        filename: String::from_str(s),
        ext: String::from_str(ext),
        compression,
    };
    if str_eq(ext, "csv") {
        Ok(DatasetConn::CSv(opts))
    } else if str_eq(ext, "json") || str_eq(ext, "jsonl") || str_eq(ext, "ndjson") {
        Ok(DatasetConn::NdJson(opts))
    } else {
        Err(ConnError::UnsupportedFormat(String::from_str(last)))
    }
}

/// Resolves a source string to a dataset source: a `postgres://` string is a
/// relational source, a `.parquet` name a columnar file, and otherwise the
/// suffix chain `.<format>` or `.<format>.<compression>` decides between a
/// delimited-text file and a newline-delimited-record file.
pub fn verify_conn(s: &str) -> (r: Result<DatasetConn, ConnError>)
    ensures
        r is Ok <==> accepts(s@),
        r matches Ok(c) ==> conn_for(s@, c),
        r matches Err(e) ==> error_for(s@, e),
{
    if str_starts_with(s, "postgres://") {
        return Ok(DatasetConn::Postgres(String::from_str(s)));
    }
    if str_ends_with(s, ".parquet") {
        return Ok(DatasetConn::Parquet(String::from_str(s)));
    }
    let n = s.unicode_len();
    assert(s@.subrange(0, n as int) =~= s@);
    match last_dot_before(s, n) {
        None => Err(ConnError::NoSuffix),
        Some(d) => {
            proof {
                lemma_last_dot_bounds(s@);
            }
            let last = s.substring_char(d + 1, n);
            match compression_of_str(last) {
                Some(c) => {
                    let ghost p = s@.subrange(0, d as int);
                    assert(s@.subrange(0, d as int) =~= p);
                    match last_dot_before(s, d) {
                        None => Err(ConnError::UnsupportedFormat(String::from_str(last))),
                        Some(d2) => {
                            proof {
                                lemma_last_dot_bounds(p);
                            }
                            let ext = s.substring_char(d2 + 1, d);
                            assert(ext@ =~= last_suffix(p));
                            file_conn(s, ext, c, last)
                        },
                    }
                },
                None => file_conn(s, last, Compression::Uncompressed, last),
            }
        },
    }
}

} // verus!

//! Project locations: resolving paths against the workspace root, the
//! per-project cache file, and the SHA-256 keys of cached texts.
use vstd::prelude::*;

use crate::builder::join_path;
use crate::text::{chars_of, copy_range, starts_with, string_of};

use sha2::Digest;

verus! {

pub const ADJUTANT_DIR: &'static str = ".adjutant";

pub const CACHE_DB_FILE: &'static str = "cache.db";

/// A path given relative to the workspace (a leading `./` dropped), made
/// absolute by joining it onto the root; absolute paths stay as they are.
pub open spec fn workspace_path_spec(root: Seq<char>, path: Seq<char>) -> Seq<char> {
    let p = if starts_with(path, "./"@) {
        path.skip(2)
    } else {
        path
    };
    if crate::paths::is_absolute(p) {
        p
    } else {
        join_path(root, p)
    }
}

/// Resolves a path against the workspace root.
pub fn resolve_workspace_path(workspace_root: &str, path: &str) -> (r: String)
    ensures
        r@ == workspace_path_spec(workspace_root@, path@),
{
    proof {
        reveal_strlit("./");
    }
    let c = chars_of(path);
    let dot = chars_of("./");
    let p: Vec<char> = if crate::text::starts_with_exec(c.as_slice(), dot.as_slice()) {
        let r = crate::text::copy_range(c.as_slice(), 2, c.len());
        assert(r@ =~= path@.skip(2));
        r
    } else {
        c
    };
    let ps = string_of(p.as_slice());
    if p.len() > 0 && p[0] == '/' {
        return ps;
    }
    let root = chars_of(workspace_root);
    let mut out = workspace_root.to_owned();
    if root.len() > 0 && root[root.len() - 1] != '/' {
        crate::text::push_char(&mut out, '/');
    }
    out.append(ps.as_str());
    proof {
        if root@.len() > 0 {
            assert(root@.last() == root@[root.len() - 1]);
        }
        if root@.len() > 0 && root@.last() != '/' {
            assert(workspace_root@.push('/') =~= workspace_root@ + seq!['/']);
        }
        assert(out@ =~= join_path(workspace_root@, p@));
    }
    out
}

/// The SHA-256 digest of a text's UTF-8 bytes.
pub uninterp spec fn sha256_digest(text: Seq<char>) -> Seq<u8>;

/// `sha2::Sha256::digest` of the text's bytes; the digest is 32 bytes.
#[verifier::external_body]
fn sha256_bytes(text: &str) -> (r: Vec<u8>)
    ensures
        r@ == sha256_digest(text@),
        r@.len() == 32,
{
    sha2::Sha256::digest(text.as_bytes()).to_vec()
}

/// The lowercase hexadecimal digit of a value below 16.
pub open spec fn hex_digit(d: u8) -> char {
    if d < 10 {
        ((d + 48) as u8) as char
    } else {
        ((d + 87) as u8) as char
    }
}

/// Two lowercase hexadecimal digits per byte.
pub open spec fn hex_lower(bytes: Seq<u8>) -> Seq<char>
    decreases bytes.len(),
{
    if bytes.len() == 0 {
        seq![]
    } else {
        hex_lower(bytes.drop_last()) + seq![
            hex_digit(bytes.last() / 16),
            hex_digit(bytes.last() % 16),
        ]
    }
}

fn hex_digit_exec(d: u8) -> (c: char)
    requires
        d < 16,
    ensures
        c == hex_digit(d),
{
    if d < 10 {
        ((d + 48) as u8) as char
    } else {
        ((d + 87) as u8) as char
    }
}

/// The cache key of a text: its SHA-256 digest in lowercase hex.
pub fn hash_query_text(query_text: &str) -> (r: String)
    ensures
        r@ == hex_lower(sha256_digest(query_text@)),
        r@.len() == 64,
{
    let bytes = sha256_bytes(query_text);
    let mut out = String::new();
    let mut i: usize = 0;
    while i < bytes.len()
        invariant
            i <= bytes@.len(),
            bytes@ == sha256_digest(query_text@),
            out@ == hex_lower(bytes@.take(i as int)),
            out@.len() == 2 * i,
        decreases bytes.len() - i,
    {
        assert(bytes@.take(i + 1).drop_last() =~= bytes@.take(i as int));
        let b = bytes[i];
        crate::text::push_char(&mut out, hex_digit_exec(b / 16));
        crate::text::push_char(&mut out, hex_digit_exec(b % 16));
        i = i + 1;
        assert(out@ =~= hex_lower(bytes@.take(i as int)));
    }
    assert(bytes@.take(bytes@.len() as int) =~= bytes@);
    out
}

/// Where per-user caches live: `$XDG_CACHE_HOME` when set and non-empty,
/// else `~/.cache`, else `.cache`.
pub open spec fn cache_home_spec(xdg: Option<Seq<char>>, home: Option<Seq<char>>) -> Seq<char> {
    match xdg {
        Some(x) if x.len() > 0 => x,
        _ => match home {
            Some(h) => join_path(h, ".cache"@),
            None => ".cache"@,
        },
    }
}

fn join_exec(root: &str, rel: &str) -> (r: String)
    ensures
        r@ == join_path(root@, rel@),
{
    let rc = chars_of(root);
    let mut out = root.to_owned();
    if rc.len() > 0 && rc[rc.len() - 1] != '/' {
        crate::text::push_char(&mut out, '/');
    }
    out.append(rel);
    proof {
        if rc@.len() > 0 {
            assert(rc@.last() == rc@[rc.len() - 1]);
        }
        if rc@.len() > 0 && rc@.last() != '/' {
            assert(root@.push('/') =~= root@ + seq!['/']);
        }
        assert(out@ =~= join_path(root@, rel@));
    }
    out
}

/// Picks the per-user cache directory from `$XDG_CACHE_HOME` and the home
/// directory.
pub fn cache_home(xdg_cache_home: Option<&str>, home_dir: Option<&str>) -> (r: String)
    ensures
        r@ == cache_home_spec(
            crate::git_janitor::opt_str_view(xdg_cache_home),
            crate::git_janitor::opt_str_view(home_dir),
        ),
{
    match xdg_cache_home {
        Some(x) => {
            if !x.is_empty() {
                return x.to_owned();
            }
        },
        None => {},
    }
    match home_dir {
        Some(h) => join_exec(h, ".cache"),
        None => ".cache".to_owned(),
    }
}

/// The SQLite cache of a project, outside the repository:
/// `<cache home>/mcp-adjutant/projects/<first 16 hex digits of the
/// canonical root's hash>/cache.db`.
pub open spec fn cache_db_path_spec(cache_home: Seq<char>, canonical_root: Seq<char>) -> Seq<char> {
    let key = hex_lower(sha256_digest(canonical_root)).take(16);
    join_path(
        join_path(join_path(join_path(cache_home, "mcp-adjutant"@), "projects"@), key),
        "cache.db"@,
    )
}

/// The cache database path of a project, given the cache home and the
/// project's canonical root.
pub fn project_cache_db_path(cache_home: &str, canonical_root: &str) -> (r: String)
    ensures
        r@ == cache_db_path_spec(cache_home@, canonical_root@),
{
    let key = hash_query_text(canonical_root);
    let kc = chars_of(key.as_str());
    let short = string_of(crate::text::copy_range(kc.as_slice(), 0, 16).as_slice());
    assert(short@ =~= key@.take(16));
    let a = join_exec(cache_home, "mcp-adjutant");
    let b = join_exec(a.as_str(), "projects");
    let c = join_exec(b.as_str(), short.as_str());
    join_exec(c.as_str(), "cache.db")
}

/// `SystemTime::now().duration_since(UNIX_EPOCH)` in whole seconds; the
/// error text when the clock is set before the epoch.
#[verifier::external_body]
fn unix_time_secs() -> (r: Result<u64, String>) {
    std::time::SystemTime::now().duration_since(std::time::UNIX_EPOCH).map(|d| d.as_secs()).map_err(
        |err| err.to_string(),
    )
}

/// The timestamp a clock reading gives: its seconds as an `i64`, or the
/// reading's error behind a note that the clock is before the epoch.
pub open spec fn timestamp_spec(reading: Result<u64, String>) -> Result<i64, Seq<char>> {
    match reading {
        Ok(secs) => Ok(secs as i64),
        Err(e) => Err("system clock is before UNIX epoch: "@ + e@),
    }
}

/// Reads a clock reading as a timestamp.
pub fn timestamp_from_reading(reading: Result<u64, String>) -> (r: Result<i64, String>)
    ensures
        timestamp_spec(reading) == match r {
            Ok(t) => Ok::<i64, Seq<char>>(t),
            Err(e) => Err::<i64, Seq<char>>(e@),
        },
{
    match reading {
        Ok(secs) => Ok(secs as i64),
        Err(err) => {
            let mut m = "system clock is before UNIX epoch: ".to_owned();
            m.append(err.as_str());
            Err(m)
        },
    }
}

/// Seconds since the Unix epoch, or an error when the clock is before it:
/// `timestamp_spec` of the clock's reading, whatever the clock reads.
pub fn current_unix_timestamp() -> (r: Result<i64, String>)
    ensures
        exists|reading: Result<u64, String>| #[trigger] timestamp_spec(reading) == match r {
            Ok(t) => Ok::<i64, Seq<char>>(t),
            Err(e) => Err::<i64, Seq<char>>(e@),
        },
        r matches Err(e) ==> crate::text::starts_with(e@, "system clock is before UNIX epoch: "@),
{
    let reading = unix_time_secs();
    let ghost rv = reading;
    let r = timestamp_from_reading(reading);
    proof {
        reveal_strlit("system clock is before UNIX epoch: ");
        assert(timestamp_spec(rv) == match r {
            Ok(t) => Ok::<i64, Seq<char>>(t),
            Err(e) => Err::<i64, Seq<char>>(e@),
        });
        if r is Err {
            let ev = match rv {
                Err(x) => x@,
                Ok(_) => Seq::<char>::empty(),
            };
            assert(r->Err_0@ == "system clock is before UNIX epoch: "@ + ev);
            assert(r->Err_0@.subrange(0, 35) =~= "system clock is before UNIX epoch: "@);
        }
    }
    r
}

/// The workspace-relative form of a path: its components joined with `/`,
/// where `..` becomes `../` and the root and `.` are dropped.
pub open spec fn posix_fold(comps: Seq<Seq<char>>) -> Seq<char>
    decreases comps.len(),
{
    if comps.len() == 0 {
        seq![]
    } else {
        let acc = posix_fold(comps.drop_last());
        let c = comps.last();
        if c == seq!['/'] || c == seq!['.'] {
            acc
        } else if c == seq!['.', '.'] {
            acc + "../"@
        } else if acc.len() > 0 {
            acc + seq!['/'] + c
        } else {
            c
        }
    }
}

/// A path as a `/`-separated string built from its components.
pub fn path_to_posix_string(path: &str) -> (r: String)
    ensures
        r@ == posix_fold(crate::paths::components(path@)),
{
    proof {
        reveal_strlit("../");
    }
    let comps = crate::paths::components_exec(chars_of(path).as_slice());
    let mut out: Vec<char> = Vec::new();
    let mut i: usize = 0;
    while i < comps.len()
        invariant
            i <= comps@.len(),
            crate::text::views(comps@) == crate::paths::components(path@),
            out@ == posix_fold(crate::text::views(comps@).take(i as int)),
        decreases comps.len() - i,
    {
        assert(crate::text::views(comps@).take(i + 1).drop_last() =~= crate::text::views(
            comps@,
        ).take(i as int));
        let c = &comps[i];
        assert(crate::text::views(comps@).take(i + 1).last() == c@);
        let ghost acc = out@;
        let root = c.len() == 1 && c[0] == '/';
        let cur = c.len() == 1 && c[0] == '.';
        let parent = c.len() == 2 && c[0] == '.' && c[1] == '.';
        proof {
            if c@.len() == 1 {
                assert(root == (c@ == seq!['/'])) by {
                    if root {
                        assert(c@ =~= seq!['/']);
                    }
                }
                assert(cur == (c@ == seq!['.'])) by {
                    if cur {
                        assert(c@ =~= seq!['.']);
                    }
                }
            }
            if c@.len() == 2 {
                assert(parent == (c@ == seq!['.', '.'])) by {
                    if parent {
                        assert(c@ =~= seq!['.', '.']);
                    }
                }
            }
        }
        if root || cur {
        } else if parent {
            out.push('.');
            out.push('.');
            out.push('/');
            proof {
                reveal_strlit("../");
            }
            assert(out@ =~= acc + "../"@);
        } else {
            if out.len() > 0 {
                out.push('/');
            }
            crate::text::append_chars(&mut out, c.as_slice());
        }
        i = i + 1;
        assert(out@ =~= posix_fold(crate::text::views(comps@).take(i as int)));
    }
    assert(crate::text::views(comps@).take(comps@.len() as int) =~= crate::text::views(comps@));
    string_of(out.as_slice())
}


/// Walks the components of a relative path down from the workspace root: a name
/// goes one level down, `..` one level up, and climbing above the root fails.
/// The result is the stack of names the walk ends on.
pub open spec fn bounded_walk(xs: Seq<Seq<char>>) -> Option<Seq<Seq<char>>>
    decreases xs.len(),
{
    if xs.len() == 0 {
        Some(seq![])
    } else {
        match bounded_walk(xs.drop_last()) {
            None => None,
            Some(st) => if xs.last() == seq!['.', '.'] {
                if st.len() == 0 {
                    None
                } else {
                    Some(st.drop_last())
                }
            } else {
                Some(st.push(xs.last()))
            },
        }
    }
}

pub open spec fn outside_workspace_msg() -> Seq<char> {
    "file_path must stay within the workspace"@
}

/// The path with a leading `./` dropped.
pub open spec fn strip_dot_slash(path: Seq<char>) -> Seq<char> {
    if starts_with(path, "./"@) {
        path.skip(2)
    } else {
        path
    }
}

/// A path resolved under the workspace root with `..` escapes refused: an
/// absolute path stays as it is; a relative one is walked from the root.
pub open spec fn bounded_path_spec(root: Seq<char>, path: Seq<char>) -> Result<Seq<char>, Seq<char>> {
    let p = strip_dot_slash(path);
    if crate::paths::is_absolute(p) {
        Ok(p)
    } else {
        match bounded_walk(crate::paths::keep_named(crate::paths::pieces(p))) {
            None => Err(outside_workspace_msg()),
            Some(st) => Ok(
                if st.len() == 0 {
                    root
                } else {
                    join_path(root, crate::text::join(st, "/"@))
                },
            ),
        }
    }
}

/// A walk over pieces none of which is `..` never climbs above the root.
proof fn lemma_walk_without_parent(xs: Seq<Seq<char>>)
    requires
        forall|i: int| 0 <= i < xs.len() ==> xs[i] != seq!['.', '.'],
    ensures
        bounded_walk(xs) is Some,
    decreases xs.len(),
{
    if xs.len() > 0 {
        lemma_walk_without_parent(xs.drop_last());
        assert(xs.last() == xs[xs.len() - 1]);
    }
}

/// The named pieces are among the pieces.
proof fn lemma_keep_named_within(xs: Seq<Seq<char>>)
    ensures
        forall|i: int| 0 <= i < crate::paths::keep_named(xs).len() ==> exists|j: int|
            0 <= j < xs.len() && #[trigger] crate::paths::keep_named(xs)[i] == xs[j],
    decreases xs.len(),
{
    if xs.len() > 0 {
        lemma_keep_named_within(xs.drop_last());
        let k = crate::paths::keep_named(xs.drop_last());
        assert forall|i: int| 0 <= i < crate::paths::keep_named(xs).len() implies exists|j: int|
            0 <= j < xs.len() && #[trigger] crate::paths::keep_named(xs)[i] == xs[j] by {
            if i < k.len() {
                let j = choose|j: int| 0 <= j < xs.drop_last().len() && k[i] == xs.drop_last()[j];
                assert(xs[j] == xs.drop_last()[j]);
            } else {
                assert(xs[xs.len() - 1] == xs.last());
            }
        }
    }
}

/// Resolving a path that names no `..` component never fails, and what a
/// relative path resolves to always lies under the workspace root.
pub proof fn lemma_bounded_path_stays_inside(root: Seq<char>, path: Seq<char>)
    ensures
        !crate::paths::has_parent_dir(strip_dot_slash(path)) ==> bounded_path_spec(root, path) is Ok,
        !crate::paths::is_absolute(strip_dot_slash(path)) && bounded_path_spec(root, path) is Ok
            ==> starts_with(bounded_path_spec(root, path)->Ok_0, root),
{
    let p = strip_dot_slash(path);
    let xs = crate::paths::pieces(p);
    if !crate::paths::has_parent_dir(p) {
        lemma_keep_named_within(xs);
        let k = crate::paths::keep_named(xs);
        assert forall|i: int| 0 <= i < k.len() implies k[i] != seq!['.', '.'] by {
            let j = choose|j: int| 0 <= j < xs.len() && k[i] == xs[j];
            assert(xs[j] != seq!['.', '.']);
        }
        lemma_walk_without_parent(k);
    }
    if !crate::paths::is_absolute(p) && bounded_path_spec(root, path) is Ok {
        let r = bounded_path_spec(root, path)->Ok_0;
        assert(r.take(root.len() as int) =~= root);
    }
}

/// Resolves a path under the workspace root, refusing any `..` that would climb
/// above it.
pub fn resolve_workspace_path_bounded(workspace_root: &str, path: &str) -> (r: Result<String, String>)
    ensures
        match bounded_path_spec(workspace_root@, path@) {
            Ok(x) => r matches Ok(y) && y@ == x,
            Err(e) => r matches Err(y) && y@ == e,
        },
{
    proof {
        reveal_strlit("./");
        reveal_strlit("/");
    }
    let c = chars_of(path);
    let dot = chars_of("./");
    let p: Vec<char> = if crate::text::starts_with_exec(c.as_slice(), dot.as_slice()) {
        let r = crate::text::copy_range(c.as_slice(), 2, c.len());
        assert(r@ =~= path@.skip(2));
        r
    } else {
        c
    };
    if p.len() > 0 && p[0] == '/' {
        return Ok(string_of(p.as_slice()));
    }
    let xs = crate::text::split_char_exec(p.as_slice(), '/');
    let ghost pcs = crate::text::views(xs@);
    let mut stack: Vec<Vec<char>> = Vec::new();
    let mut i: usize = 0;
    while i < xs.len()
        invariant
            i <= xs@.len(),
            pcs == crate::text::views(xs@),
            pcs.len() == xs@.len(),
            pcs == crate::paths::pieces(p@),
            p@ == strip_dot_slash(path@),
            !crate::paths::is_absolute(p@),
            bounded_walk(crate::paths::keep_named(pcs.take(i as int))) == Some(crate::text::views(stack@)),
        decreases xs.len() - i,
    {
        let ghost before = crate::text::views(stack@);
        assert(pcs.take(i + 1).drop_last() =~= pcs.take(i as int));
        assert(pcs.take(i + 1).last() == pcs[i as int]);
        let x = &xs[i];
        assert(pcs[i as int] == x@);
        let is_dot = x.len() == 1 && x[0] == '.';
        let is_up = x.len() == 2 && x[0] == '.' && x[1] == '.';
        proof {
            assert(is_dot == (x@ == seq!['.'])) by {
                if x@.len() == 1 && x@[0] == '.' {
                    assert(x@ =~= seq!['.']);
                }
            }
            assert(is_up == (x@ == seq!['.', '.'])) by {
                if x@.len() == 2 && x@[0] == '.' && x@[1] == '.' {
                    assert(x@ =~= seq!['.', '.']);
                }
            }
        }
        let ghost k = crate::paths::keep_named(pcs.take(i as int));
        if x.len() == 0 || is_dot {
            assert(crate::paths::keep_named(pcs.take(i + 1)) == k);
        } else if is_up {
            assert(crate::paths::keep_named(pcs.take(i + 1)) == k.push(x@));
            assert(k.push(x@).drop_last() =~= k);
            if stack.len() == 0 {
                proof {
                    assert(before =~= Seq::<Seq<char>>::empty());
                    lemma_walk_fails_on(pcs, i as int);
                }
                return Err("file_path must stay within the workspace".to_owned());
            }
            stack.pop();
            assert(crate::text::views(stack@) =~= before.drop_last());
        } else {
            assert(crate::paths::keep_named(pcs.take(i + 1)) == k.push(x@));
            assert(k.push(x@).drop_last() =~= k);
            let y = copy_range(x.as_slice(), 0, x.len());
            assert(y@ =~= x@);
            stack.push(y);
            assert(crate::text::views(stack@) =~= before.push(x@));
        }
        i = i + 1;
    }
    assert(pcs.take(xs@.len() as int) =~= pcs);
    if stack.len() == 0 {
        return Ok(workspace_root.to_owned());
    }
    let rel = crate::text::join_exec(stack.as_slice(), chars_of("/").as_slice());
    Ok(join_exec(workspace_root, string_of(rel.as_slice()).as_str()))
}

/// Climbing above the root at piece `i` makes the whole walk fail.
proof fn lemma_walk_fails_on(pcs: Seq<Seq<char>>, i: int)
    requires
        0 <= i < pcs.len(),
        pcs[i] == seq!['.', '.'],
        bounded_walk(crate::paths::keep_named(pcs.take(i))) == Some(Seq::<Seq<char>>::empty()),
    ensures
        bounded_walk(crate::paths::keep_named(pcs)) is None,
{
    let k = crate::paths::keep_named(pcs.take(i));
    assert(pcs.take(i + 1).drop_last() =~= pcs.take(i));
    assert(pcs.take(i + 1).last() == pcs[i]);
    assert(crate::paths::keep_named(pcs.take(i + 1)) == k.push(pcs[i]));
    assert(k.push(pcs[i]).drop_last() =~= k);
    lemma_walk_none_tail(pcs, i + 1);
}

/// Once the walk fails on a prefix of the pieces it fails on the whole.
proof fn lemma_walk_none_tail(pcs: Seq<Seq<char>>, j: int)
    requires
        0 < j <= pcs.len(),
        bounded_walk(crate::paths::keep_named(pcs.take(j))) is None,
    ensures
        bounded_walk(crate::paths::keep_named(pcs)) is None,
    decreases pcs.len() - j,
{
    if j < pcs.len() {
        let k = crate::paths::keep_named(pcs.take(j));
        assert(pcs.take(j + 1).drop_last() =~= pcs.take(j));
        assert(pcs.take(j + 1).last() == pcs[j]);
        assert(k.push(pcs[j]).drop_last() =~= k);
        lemma_walk_none_tail(pcs, j + 1);
    } else {
        assert(pcs.take(j) =~= pcs);
    }
}

} // verus!

//! What the user's commands do to the settings: registering, editing and
//! deleting repositories, saving settings within their ranges, and the
//! bookkeeping around a repository's running task.
use vstd::prelude::*;
use crate::git::{trim_git_suffixes, trim_separators, git_suffix};
use crate::models::{CloseBehavior, GitResult, Repository, RepositoryPathKind, Settings, Timestamp};
use crate::inspect::{clone_target, is_clone_target};
use crate::text::{decimal, decimal_string, join_strings, joined, string_views, chars_of, eq_ignore_ascii_case, eq_ignore_case, is_blank, string_of, suffix_before, trim};

verus! {

/// What follows the last `/` or `:` of `s` (all of `s` when it has none).
pub open spec fn last_segment(s: Seq<char>) -> Seq<char>
    decreases s.len(),
{
    if s.len() == 0 || s.last() == '/' || s.last() == ':' {
        seq![]
    } else {
        last_segment(s.drop_last()).push(s.last())
    }
}

/// The name guessed from a remote address: its last path segment without
/// trailing separators and `.git`.
pub open spec fn guessed_name(url: Seq<char>) -> Seq<char> {
    trim_git_suffixes(last_segment(trim_separators(url)))
}

proof fn lemma_last_segment(s: Seq<char>, start: int)
    requires
        0 <= start <= s.len(),
        forall|k: int| start <= k < s.len() ==> s[k] != '/' && s[k] != ':',
        start == 0 || s[start - 1] == '/' || s[start - 1] == ':',
    ensures
        last_segment(s) == s.skip(start),
    decreases s.len(),
{
    if s.len() == start {
        assert(s.skip(start) =~= Seq::<char>::empty());
    } else {
        lemma_last_segment(s.drop_last(), start);
        assert(s.drop_last().skip(start).push(s.last()) =~= s.skip(start));
    }
}

/// The name of a repository registered without one, guessed from its
/// address.
pub fn guess_name(url: &str) -> (r: String)
    ensures
        r@ == guessed_name(url@),
{
    let v = chars_of(url);
    let mut end = v.len();
    assert(v@.take(end as int) =~= v@);
    while end > 0 && (v[end - 1] == '/' || v[end - 1] == '\\')
        invariant
            end <= v@.len(),
            v@ == url@,
            trim_separators(url@) == trim_separators(v@.take(end as int)),
        decreases end,
    {
        proof {
            let t = v@.take(end as int);
            assert(t.last() == v@[end - 1]);
            assert(t.drop_last() =~= v@.take(end - 1));
        }
        end = end - 1;
    }
    proof {
        let t = v@.take(end as int);
        if end > 0 {
            assert(t.last() == v@[end - 1]);
        }
        assert(trim_separators(t) == t);
    }
    let mut start = end;
    while start > 0 && v[start - 1] != '/' && v[start - 1] != ':'
        invariant
            start <= end <= v@.len(),
            forall|k: int| start <= k < end ==> v@[k] != '/' && v@[k] != ':',
        decreases start,
    {
        start = start - 1;
    }
    proof {
        let t = v@.take(end as int);
        lemma_last_segment(t, start as int);
        assert(t.skip(start as int) =~= v@.subrange(start as int, end as int));
    }
    let git = chars_of(".git");
    proof {
        reveal_strlit(".git");
        assert(git@ =~= git_suffix());
    }
    let ghost base = v@.subrange(start as int, end as int);
    let mut stop = end;
    while stop - start >= 4 && suffix_before(&v, stop, &git)
        invariant
            start <= stop <= v@.len(),
            git@ == git_suffix(),
            trim_git_suffixes(base) == trim_git_suffixes(v@.subrange(start as int, stop as int)),
        decreases stop,
    {
        proof {
            let t = v@.subrange(start as int, stop as int);
            assert(v@.take(stop as int).skip(stop - 4) =~= t.skip(t.len() - 4));
            assert(t.take(t.len() - 4) =~= v@.subrange(start as int, stop - 4));
        }
        stop = stop - 4;
    }
    proof {
        let t = v@.subrange(start as int, stop as int);
        if stop - start >= 4 {
            assert(v@.take(stop as int).skip(stop - 4) =~= t.skip(t.len() - 4));
        }
        assert(trim_git_suffixes(t) == t);
    }
    string_of(&v, start, stop)
}

/// A check interval brought into one minute to one week.
pub open spec fn clamp_interval(minutes: u32) -> u32 {
    if minutes < 1 {
        1
    } else if minutes > 10080 {
        10080
    } else {
        minutes
    }
}

fn clamp_u32(value: u32, low: u32, high: u32) -> (r: u32)
    requires
        low <= high,
    ensures
        r == (if value < low {
            low
        } else if value > high {
            high
        } else {
            value
        }),
{
    if value < low {
        low
    } else if value > high {
        high
    } else {
        value
    }
}

fn clamp_u8(value: u8, low: u8, high: u8) -> (r: u8)
    requires
        low <= high,
    ensures
        r == (if value < low {
            low
        } else if value > high {
            high
        } else {
            value
        }),
{
    if value < low {
        low
    } else if value > high {
        high
    } else {
        value
    }
}

/// The index of the first repository with id `id`.
pub open spec fn index_of_id(rs: Seq<Repository>, id: Seq<char>) -> Option<int>
    decreases rs.len(),
{
    if rs.len() == 0 {
        None
    } else if rs[0].id@ == id {
        Some(0)
    } else {
        match index_of_id(rs.drop_first(), id) {
            Some(k) => Some(k + 1),
            None => None,
        }
    }
}

pub proof fn lemma_index_of_id(rs: Seq<Repository>, id: Seq<char>)
    ensures
        index_of_id(rs, id) matches Some(k) ==> 0 <= k < rs.len() && rs[k].id@ == id && forall|
            j: int,
        | 0 <= j < k ==> rs[j].id@ != id,
        index_of_id(rs, id) is None ==> forall|j: int| 0 <= j < rs.len() ==> rs[j].id@ != id,
    decreases rs.len(),
{
    if rs.len() > 0 && rs[0].id@ != id {
        lemma_index_of_id(rs.drop_first(), id);
        assert forall|j: int| 1 <= j < rs.len() implies rs[j] == rs.drop_first()[j - 1] by {}
    }
}

/// The index of the first repository with id `id`.
pub fn find_repository(settings: &Settings, id: &str) -> (r: Option<usize>)
    ensures
        match r {
            Some(k) => index_of_id(settings.repositories@, id@) == Some(k as int),
            None => index_of_id(settings.repositories@, id@) is None,
        },
{
    let key = String::from_str(id);
    let ghost rs = settings.repositories@;
    let mut i: usize = 0;
    assert(rs.skip(0) =~= rs);
    while i < settings.repositories.len()
        invariant
            i <= rs.len(),
            rs == settings.repositories@,
            key@ == id@,
            index_of_id(rs, id@) == match index_of_id(rs.skip(i as int), id@) {
                Some(k) => Some(k + i),
                None => None,
            },
        decreases rs.len() - i,
    {
        assert(rs.skip(i as int)[0] == rs[i as int]);
        if settings.repositories[i].id == key {
            return Some(i);
        }
        assert(rs.skip(i as int).drop_first() =~= rs.skip(i + 1));
        i = i + 1;
    }
    assert(rs.skip(i as int) =~= Seq::<Repository>::empty());
    None
}

/// Whether another repository (another id) already uses `local_path`, up to
/// ASCII case.
pub open spec fn path_taken(rs: Seq<Repository>, id: Seq<char>, local_path: Seq<char>) -> bool {
    exists|i: int|
        0 <= i < rs.len() && rs[i].id@ != id && eq_ignore_case(#[trigger] rs[i].local_path@, local_path)
}

/// A repository as it is stored: its id given, a guessed name when it has
/// none, and its interval within range.
pub open spec fn prepared(r: Repository, saved: Repository) -> bool {
    &&& saved.name@ == (if trim(r.name@).len() == 0 {
        guessed_name(r.url@)
    } else {
        r.name@
    })
    &&& saved.interval_minutes == clamp_interval(r.interval_minutes)
    &&& saved.url == r.url
    &&& saved.local_path == r.local_path
    &&& saved.branch == r.branch
    &&& saved.auto_pull == r.auto_pull
    &&& saved.last_attempt == r.last_attempt
    &&& saved.last_success == r.last_success
    &&& saved.last_status == r.last_status
    &&& saved.is_running == r.is_running
}

/// The repositories after storing `saved`: it replaces the first with its
/// id, or is appended.
pub open spec fn upserted(rs: Seq<Repository>, saved: Repository) -> Seq<Repository> {
    match index_of_id(rs, saved.id@) {
        Some(k) => rs.update(k, saved),
        None => rs.push(saved),
    }
}

/// Settings equal except for their repositories.
pub open spec fn same_but_repositories(a: Settings, b: Settings) -> bool {
    a == (Settings { repositories: a.repositories, ..b })
}

/// Stores `repository`, whose id is set: refused without an address or a
/// local directory, or when another repository uses the directory;
/// otherwise its name is guessed when missing, its interval brought into
/// range, and it replaces the repository with its id or is appended.
#[verifier::loop_isolation(false)]
pub fn store_repository(settings: &mut Settings, repository: Repository) -> (r: Result<Repository, String>)
    ensures
        trim(repository.url@).len() == 0 || trim(repository.local_path@).len() == 0 ==> (r matches Err(
            e,
        ) && e@ == "请填写 Git 地址和本地目录"@ && *final(settings) == *old(settings)),
        trim(repository.url@).len() > 0 && trim(repository.local_path@).len() > 0 && path_taken(
            old(settings).repositories@,
            repository.id@,
            repository.local_path@,
        ) ==> (r matches Err(e) && e@ == "该本地目录已由其他项目使用"@ && *final(settings)
            == *old(settings)),
        trim(repository.url@).len() > 0 && trim(repository.local_path@).len() > 0 && !path_taken(
            old(settings).repositories@,
            repository.id@,
            repository.local_path@,
        ) ==> (r matches Ok(saved) && saved.id == repository.id && prepared(repository, saved)
            && final(settings).repositories@ == upserted(old(settings).repositories@, saved)
            && same_but_repositories(*final(settings), *old(settings))),
        r matches Ok(saved) ==> !path_taken(old(settings).repositories@, saved.id@, repository.local_path@),
{
    if is_blank(repository.url.as_str()) || is_blank(repository.local_path.as_str()) {
        return Err(String::from_str("请填写 Git 地址和本地目录"));
    }
    let mut repository = repository;
    let ghost incoming = repository;
    if is_blank(repository.name.as_str()) {
        repository.name = guess_name(repository.url.as_str());
    }
    repository.interval_minutes = clamp_u32(repository.interval_minutes, 1, 10080);
    let ghost rs = settings.repositories@;
    let mut i: usize = 0;
    while i < settings.repositories.len()
        invariant
            i <= rs.len(),
            rs == settings.repositories@,
            repository.id == incoming.id,
            repository.local_path == incoming.local_path,
            forall|k: int|
                0 <= k < i ==> !(rs[k].id@ != incoming.id@ && eq_ignore_case(
                    #[trigger] rs[k].local_path@,
                    incoming.local_path@,
                )),
        decreases rs.len() - i,
    {
        let other = &settings.repositories[i];
        if other.id != repository.id && eq_ignore_ascii_case(
            other.local_path.as_str(),
            repository.local_path.as_str(),
        ) {
            assert(eq_ignore_case(rs[i as int].local_path@, incoming.local_path@));
            assert(path_taken(rs, incoming.id@, incoming.local_path@));
            return Err(String::from_str("该本地目录已由其他项目使用"));
        }
        i = i + 1;
    }
    let saved = repository.duplicate();
    proof {
        lemma_index_of_id(rs, incoming.id@);
    }
    match find_repository(settings, repository.id.as_str()) {
        Some(k) => {
            settings.repositories.set(k, saved);
        },
        None => {
            settings.repositories.push(saved);
        },
    }
    Ok(repository)
}

/// The lower-case hexadecimal digit for `n` in `0..16`.
pub open spec fn hex_digit(n: int) -> char {
    if n < 10 {
        (48 + n) as char
    } else {
        (87 + n) as char
    }
}

/// Each byte as two lower-case hexadecimal digits, high half first.
pub open spec fn hex_of(bytes: Seq<u8>) -> Seq<char>
    decreases bytes.len(),
{
    if bytes.len() == 0 {
        seq![]
    } else {
        seq![hex_digit(bytes[0] as int / 16), hex_digit(bytes[0] as int % 16)] + hex_of(bytes.drop_first())
    }
}

/// The bytes of the version 4 UUID made from 16 random bytes: byte 6 gets
/// the version 4 in its high half, byte 8 the RFC variant (`10` in its top
/// two bits).
pub open spec fn uuid_bytes(random: Seq<u8>) -> Seq<u8> {
    random.update(6, (random[6] % 16 + 64) as u8).update(8, (random[8] % 64 + 128) as u8)
}

/// The hyphenated lower-case text of the UUID made from `random`: its bytes
/// in hexadecimal, in groups of 4, 2, 2, 2 and 6 bytes.
pub open spec fn uuid_text(random: Seq<u8>) -> Seq<char> {
    let b = uuid_bytes(random);
    hex_of(b.subrange(0, 4)) + seq!['-'] + hex_of(b.subrange(4, 6)) + seq!['-'] + hex_of(
        b.subrange(6, 8),
    ) + seq!['-'] + hex_of(b.subrange(8, 10)) + seq!['-'] + hex_of(b.subrange(10, 16))
}

/// `uuid::Builder::from_random_bytes`, then `into_uuid` and `to_string`.
/// Claimed: the text is `uuid_text` of the bytes, as `from_random_bytes`
/// sets the version (byte 6) and variant (byte 8) bits and `Display` writes
/// the bytes as hyphenated lower-case hexadecimal.
#[verifier::external_body]
fn random_uuid_text(random: [u8; 16]) -> (r: String)
    ensures
        r@ == uuid_text(random@),
{
    uuid::Builder::from_random_bytes(random).into_uuid().to_string()
}

/// The id a repository is saved under: its own, or, when it has none, the
/// UUID made from `random`.
pub open spec fn saved_id(repository: Repository, random: Seq<u8>) -> Seq<char> {
    if repository.id@.len() == 0 {
        uuid_text(random)
    } else {
        repository.id@
    }
}

/// Saves `repository`: one without an id gets the version 4 UUID made from
/// the 16 `random` bytes first; then it is stored as [`store_repository`]
/// does.
pub fn save_repository(settings: &mut Settings, repository: Repository, random: [u8; 16]) -> (r: Result<Repository, String>)
    ensures
        trim(repository.url@).len() == 0 || trim(repository.local_path@).len() == 0 ==> (r matches Err(
            e,
        ) && e@ == "请填写 Git 地址和本地目录"@ && *final(settings) == *old(settings)),
        trim(repository.url@).len() > 0 && trim(repository.local_path@).len() > 0 && path_taken(
            old(settings).repositories@,
            saved_id(repository, random@),
            repository.local_path@,
        ) ==> (r matches Err(e) && e@ == "该本地目录已由其他项目使用"@ && *final(settings)
            == *old(settings)),
        trim(repository.url@).len() > 0 && trim(repository.local_path@).len() > 0 && !path_taken(
            old(settings).repositories@,
            saved_id(repository, random@),
            repository.local_path@,
        ) ==> (r matches Ok(saved) && saved.id@ == saved_id(repository, random@) && (
        repository.id@.len() > 0 ==> saved.id == repository.id) && prepared(repository, saved)
            && final(settings).repositories@ == upserted(old(settings).repositories@, saved)
            && same_but_repositories(*final(settings), *old(settings))),
{
    if is_blank(repository.url.as_str()) || is_blank(repository.local_path.as_str()) {
        return Err(String::from_str("请填写 Git 地址和本地目录"));
    }
    let mut repository = repository;
    if repository.id.as_str().is_empty() {
        repository.id = random_uuid_text(random);
    }
    store_repository(settings, repository)
}

/// The repositories without those whose id is `id`.
pub open spec fn without_id(rs: Seq<Repository>, id: Seq<char>) -> Seq<Repository>
    decreases rs.len(),
{
    if rs.len() == 0 {
        seq![]
    } else if rs.last().id@ == id {
        without_id(rs.drop_last(), id)
    } else {
        without_id(rs.drop_last(), id).push(rs.last())
    }
}

/// Removes every repository whose id is `id`.
pub fn delete_repository(settings: &mut Settings, id: &str)
    ensures
        final(settings).repositories@ == without_id(old(settings).repositories@, id@),
        same_but_repositories(*final(settings), *old(settings)),
{
    let key = String::from_str(id);
    let mut kept: Vec<Repository> = Vec::new();
    let ghost rs = settings.repositories@;
    let mut i: usize = 0;
    while i < settings.repositories.len()
        invariant
            i <= rs.len(),
            rs == settings.repositories@,
            key@ == id@,
            kept@ == without_id(rs.take(i as int), id@),
        decreases rs.len() - i,
    {
        assert(rs.take(i + 1).drop_last() =~= rs.take(i as int));
        assert(rs.take(i + 1).last() == rs[i as int]);
        if settings.repositories[i].id != key {
            kept.push(settings.repositories[i].duplicate());
        }
        i = i + 1;
    }
    assert(rs.take(rs.len() as int) =~= rs);
    settings.repositories = kept;
}

/// The settings as they are saved: the log size limit in 1 to 100 MB, the
/// contrast at most 100, the interface font size in 11 to 20, the code font
/// size in 10 to 20, and each repository's interval within range.
pub open spec fn sanitized(before: Settings, after: Settings) -> bool {
    &&& after.max_log_size_mb == (if before.max_log_size_mb < 1 {
        1
    } else if before.max_log_size_mb > 100 {
        100
    } else {
        before.max_log_size_mb
    })
    &&& after.contrast == (if before.contrast > 100 {
        100
    } else {
        before.contrast
    })
    &&& after.ui_font_size == (if before.ui_font_size < 11 {
        11
    } else if before.ui_font_size > 20 {
        20
    } else {
        before.ui_font_size
    })
    &&& after.code_font_size == (if before.code_font_size < 10 {
        10
    } else if before.code_font_size > 20 {
        20
    } else {
        before.code_font_size
    })
    &&& after.repositories@.len() == before.repositories@.len()
    &&& forall|i: int|
        0 <= i < before.repositories@.len() ==> (#[trigger] after.repositories@[i])
            == (Repository {
            interval_minutes: clamp_interval(before.repositories@[i].interval_minutes),
            ..before.repositories@[i]
        })
    &&& after == (Settings {
        max_log_size_mb: after.max_log_size_mb,
        contrast: after.contrast,
        ui_font_size: after.ui_font_size,
        code_font_size: after.code_font_size,
        repositories: after.repositories,
        ..before
    })
}

/// Brings the settings that the user saves within their ranges.
pub fn sanitize_settings(settings: Settings) -> (r: Settings)
    ensures
        sanitized(settings, r),
{
    let mut s = settings;
    s.max_log_size_mb = clamp_u32(s.max_log_size_mb, 1, 100);
    s.contrast = if s.contrast > 100 {
        100
    } else {
        s.contrast
    };
    s.ui_font_size = clamp_u8(s.ui_font_size, 11, 20);
    s.code_font_size = clamp_u8(s.code_font_size, 10, 20);
    let ghost rs = settings.repositories@;
    let mut repos: Vec<Repository> = Vec::new();
    let mut i: usize = 0;
    while i < s.repositories.len()
        invariant
            i <= rs.len(),
            rs == s.repositories@,
            repos@.len() == i,
            forall|k: int|
                0 <= k < i ==> (#[trigger] repos@[k]) == (Repository {
                    interval_minutes: clamp_interval(rs[k].interval_minutes),
                    ..rs[k]
                }),
        decreases rs.len() - i,
    {
        let mut r = s.repositories[i].duplicate();
        r.interval_minutes = clamp_u32(r.interval_minutes, 1, 10080);
        repos.push(r);
        i = i + 1;
    }
    s.repositories = repos;
    s
}


/// The repository with id `id` marked as running a registration.
pub fn begin_initialize(settings: &mut Settings, id: &str) -> (r: Result<Repository, String>)
    ensures
        index_of_id(old(settings).repositories@, id@) is None ==> (r matches Err(e) && e@
            == "项目不存在"@ && *final(settings) == *old(settings)),
        index_of_id(old(settings).repositories@, id@) matches Some(k) ==> (old(settings).repositories@[k].is_running ==> (r matches Err(e) && e@ == "项目正在执行其他任务"@
            && *final(settings) == *old(settings))),
        index_of_id(old(settings).repositories@, id@) matches Some(k) ==> (!old(settings).repositories@[k].is_running ==> (r matches Ok(started) && started == (Repository {
            is_running: true,
            last_status: started.last_status,
            ..old(settings).repositories@[k]
        }) && started.last_status@ == "正在注册 Git 仓库…"@ && final(settings).repositories@
            == old(settings).repositories@.update(k, started) && same_but_repositories(
            *final(settings),
            *old(settings),
        ))),
{
    proof {
        lemma_index_of_id(settings.repositories@, id@);
    }
    match find_repository(settings, id) {
        None => Err(String::from_str("项目不存在")),
        Some(k) => {
            if settings.repositories[k].is_running {
                return Err(String::from_str("项目正在执行其他任务"));
            }
            let mut started = settings.repositories[k].duplicate();
            started.is_running = true;
            started.last_status = String::from_str("正在注册 Git 仓库…");
            let stored = started.duplicate();
            settings.repositories.set(k, stored);
            Ok(started)
        },
    }
}

/// The status shown while a repository's sync starts: cloning for a first
/// sync, updating otherwise.
pub open spec fn starting_status(kind: RepositoryPathKind) -> Seq<char> {
    if is_clone_target(kind) {
        "正在克隆…"@
    } else {
        "正在更新…"@
    }
}

/// The repository with id `id` marked as running a sync that starts at
/// `now`; a repository that already runs a task is left alone (`None`).
/// `kind` is what its directory was classified as.
pub fn begin_update(settings: &mut Settings, id: &str, kind: RepositoryPathKind, now: Timestamp) -> (r: Result<Option<Repository>, String>)
    ensures
        index_of_id(old(settings).repositories@, id@) is None ==> (r matches Err(e) && e@
            == "项目不存在"@ && *final(settings) == *old(settings)),
        index_of_id(old(settings).repositories@, id@) matches Some(k) ==> (old(settings).repositories@[k].is_running ==> (r matches Ok(None) && *final(settings) == *old(settings))),
        index_of_id(old(settings).repositories@, id@) matches Some(k) ==> (!old(settings).repositories@[k].is_running ==> (r matches Ok(Some(started)) && started == (Repository {
            is_running: true,
            last_attempt: Some(now),
            last_status: started.last_status,
            ..old(settings).repositories@[k]
        }) && started.last_status@ == starting_status(kind) && final(settings).repositories@
            == old(settings).repositories@.update(k, started) && same_but_repositories(
            *final(settings),
            *old(settings),
        ))),
{
    proof {
        lemma_index_of_id(settings.repositories@, id@);
    }
    match find_repository(settings, id) {
        None => Err(String::from_str("项目不存在")),
        Some(k) => {
            if settings.repositories[k].is_running {
                return Ok(None);
            }
            let mut started = settings.repositories[k].duplicate();
            started.is_running = true;
            started.last_attempt = Some(now);
            started.last_status = if clone_target(kind) {
                String::from_str("正在克隆…")
            } else {
                String::from_str("正在更新…")
            };
            let stored = started.duplicate();
            settings.repositories.set(k, stored);
            Ok(Some(started))
        },
    }
}

/// Records the end of the task of repository `id`: no longer running, its
/// status the result's message, and, when the task succeeded and a time is
/// given, that time as its last success. Without such a repository nothing
/// changes.
pub fn finish_task(settings: &mut Settings, id: &str, result: &GitResult, success_time: Option<Timestamp>)
    ensures
        index_of_id(old(settings).repositories@, id@) is None ==> *final(settings) == *old(settings),
        index_of_id(old(settings).repositories@, id@) matches Some(k) ==> (final(settings).repositories@.len() == old(settings).repositories@.len() && final(settings).repositories@
            == old(settings).repositories@.update(k, final(settings).repositories@[k])
            && final(settings).repositories@[k] == (Repository {
            is_running: false,
            last_status: final(settings).repositories@[k].last_status,
            last_success: if result.success && success_time is Some {
                success_time
            } else {
                old(settings).repositories@[k].last_success
            },
            ..old(settings).repositories@[k]
        }) && final(settings).repositories@[k].last_status@ == result.message@
            && same_but_repositories(*final(settings), *old(settings))),
{
    proof {
        lemma_index_of_id(settings.repositories@, id@);
    }
    match find_repository(settings, id) {
        None => {},
        Some(k) => {
            let mut done = settings.repositories[k].duplicate();
            done.is_running = false;
            done.last_status = result.message.clone();
            if result.success && success_time.is_some() {
                done.last_success = success_time;
            }
            settings.repositories.set(k, done);
        },
    }
}

/// What updating all repositories reports: success when none failed,
/// otherwise how many failed and their messages.
pub fn update_all_result(errors: Vec<String>) -> (r: Result<(), String>)
    ensures
        errors@.len() == 0 ==> r is Ok,
        errors@.len() > 0 ==> (r matches Err(e) && e@ == decimal(errors@.len()) + " 个项目更新失败："@
            + joined(string_views(errors@), "；"@)),
{
    if errors.len() == 0 {
        Ok(())
    } else {
        let count = decimal_string(errors.len());
        let list = join_strings(&errors, "；");
        Err(count.concat(" 个项目更新失败：").concat(list.as_str()))
    }
}

/// Integer division rounding toward zero, as Rust's `/` on signed integers.
pub open spec fn div_toward_zero(a: int, d: int) -> int {
    if a >= 0 {
        a / d
    } else {
        -((-a) / d)
    }
}

/// Whole minutes from `since` to `now`, rounded toward zero, as
/// `now.signed_duration_since(since).num_minutes()` counts them.
pub open spec fn elapsed_minutes(now: Timestamp, since: Timestamp) -> int {
    div_toward_zero(now.total_nanos() - since.total_nanos(), 60_000_000_000)
}

/// Whether the scheduler syncs the repository at `now`: automatic pulls are
/// on, no task runs, and it was never tried or its interval has passed since
/// the last try.
pub open spec fn is_due(r: Repository, now: Timestamp) -> bool {
    &&& r.auto_pull
    &&& !r.is_running
    &&& match r.last_attempt {
        None => true,
        Some(last) => elapsed_minutes(now, last) >= r.interval_minutes,
    }
}

fn minutes_between(now: Timestamp, since: Timestamp) -> (m: i128)
    ensures
        m == elapsed_minutes(now, since),
{
    let seconds: i128 = (now.seconds as i128) - (since.seconds as i128);
    let nanos: i128 = (now.nanos as i128) - (since.nanos as i128);
    assert(-0x1_0000_0000_0000_0000 <= seconds <= 0x1_0000_0000_0000_0000);
    assert(-0x1_0000_0000 <= nanos <= 0x1_0000_0000);
    let total: i128 = seconds * 1_000_000_000 + nanos;
    assert(total == now.total_nanos() - since.total_nanos());
    if total >= 0 {
        total / 60_000_000_000
    } else {
        -((-total) / 60_000_000_000)
    }
}

/// The ids of the repositories that the scheduler syncs at `now`, in order.
pub fn due_repositories(settings: &Settings, now: Timestamp) -> (ids: Vec<String>)
    ensures
        string_views(ids@) == settings.repositories@.filter(|r: Repository| is_due(r, now)).map_values(
            |r: Repository| r.id@,
        ),
{
    let ghost rs = settings.repositories@;
    let ghost due = |r: Repository| is_due(r, now);
    let mut ids: Vec<String> = Vec::new();
    let mut i: usize = 0;
    while i < settings.repositories.len()
        invariant
            i <= rs.len(),
            rs == settings.repositories@,
            due == (|r: Repository| is_due(r, now)),
            string_views(ids@) == rs.take(i as int).filter(due).map_values(|r: Repository| r.id@),
        decreases rs.len() - i,
    {
        let r = &settings.repositories[i];
        let is_due_now = r.auto_pull && !r.is_running && match r.last_attempt {
            None => true,
            Some(last) => minutes_between(now, last) >= r.interval_minutes as i128,
        };
        let ghost before = ids@;
        proof {
            reveal(Seq::filter);
            assert(rs.take(i + 1).drop_last() =~= rs.take(i as int));
            assert(rs.take(i + 1).last() == rs[i as int]);
        }
        if is_due_now {
            ids.push(r.id.clone());
            proof {
                assert(string_views(ids@) =~= string_views(before).push(r.id@));
                assert(rs.take(i + 1).filter(due) =~= rs.take(i as int).filter(due).push(*r));
            }
        } else {
            assert(rs.take(i + 1).filter(due) =~= rs.take(i as int).filter(due));
        }
        i = i + 1;
    }
    assert(rs.take(rs.len() as int) =~= rs);
    ids
}

/// Whether closing the main window only hides it.
pub fn hides_on_close(settings: &Settings) -> (r: bool)
    ensures
        r == (settings.close_behavior == CloseBehavior::Background),
{
    settings.close_behavior == CloseBehavior::Background
}

/// What a finished registration answers the user: its message, as an error
/// when it failed.
pub fn initialize_outcome(result: GitResult) -> (r: Result<String, String>)
    ensures
        result.success ==> (r matches Ok(m) && m@ == result.message@),
        !result.success ==> (r matches Err(m) && m@ == result.message@),
{
    if result.success {
        Ok(result.message)
    } else {
        Err(result.message)
    }
}

/// What a finished sync answers the user: nothing on success, its message as
/// an error otherwise.
pub fn update_outcome(result: GitResult) -> (r: Result<(), String>)
    ensures
        result.success ==> r is Ok,
        !result.success ==> (r matches Err(m) && m@ == result.message@),
{
    if result.success {
        Ok(())
    } else {
        Err(result.message)
    }
}

/// A log line about a repository: its name in brackets, then the message.
pub fn tagged(name: &str, message: &str) -> (r: String)
    ensures
        r@ == "["@ + name@ + "] "@ + message@,
{
    String::from_str("[").concat(name).concat("] ").concat(message)
}

/// The log message when a sync starts.
pub fn update_start_message(kind: RepositoryPathKind) -> (r: String)
    ensures
        r@ == (if is_clone_target(kind) {
            "开始克隆"@
        } else {
            "开始检查更新"@
        }),
{
    if clone_target(kind) {
        String::from_str("开始克隆")
    } else {
        String::from_str("开始检查更新")
    }
}

/// The log message when a repository is saved.
pub fn saved_message(name: &str) -> (r: String)
    ensures
        r@ == "已保存项目："@ + name@,
{
    String::from_str("已保存项目：").concat(name)
}

/// The entries of the tray menu.
#[derive(Clone, Copy, Debug, PartialEq, Eq, Structural)]
pub enum TrayAction {
    ShowWindow,
    UpdateAll,
    Quit,
    Nothing,
}

/// The action of the tray menu entry with id `id`.
pub fn tray_action(id: &str) -> (r: TrayAction)
    ensures
        id@ == "show"@ ==> r == TrayAction::ShowWindow,
        id@ == "update"@ ==> r == TrayAction::UpdateAll,
        id@ == "quit"@ ==> r == TrayAction::Quit,
        id@ != "show"@ && id@ != "update"@ && id@ != "quit"@ ==> r == TrayAction::Nothing,
{
    let key = String::from_str(id);
    proof {
        reveal_strlit("show");
        reveal_strlit("update");
        reveal_strlit("quit");
        assert("show"@.len() != "update"@.len());
        assert("show"@[0] != "quit"@[0]);
        assert("update"@.len() != "quit"@.len());
    }
    if key == String::from_str("show") {
        TrayAction::ShowWindow
    } else if key == String::from_str("update") {
        TrayAction::UpdateAll
    } else if key == String::from_str("quit") {
        TrayAction::Quit
    } else {
        TrayAction::Nothing
    }
}


/// A sound set of repositories: no two share an id, and no two share a
/// local directory up to ASCII case.
pub open spec fn registry_sound(rs: Seq<Repository>) -> bool {
    &&& forall|i: int, j: int| 0 <= i < rs.len() && 0 <= j < rs.len() && i != j ==> rs[i].id@ != rs[j].id@
    &&& forall|i: int, j: int|
        0 <= i < rs.len() && 0 <= j < rs.len() && i != j ==> !eq_ignore_case(
            #[trigger] rs[i].local_path@,
            #[trigger] rs[j].local_path@,
        )
}

proof fn lemma_eq_ignore_case_symmetric(a: Seq<char>, b: Seq<char>)
    requires
        eq_ignore_case(a, b),
    ensures
        eq_ignore_case(b, a),
{
    assert forall|i: int| 0 <= i < b.len() implies crate::text::ascii_lower(#[trigger] b[i])
        == crate::text::ascii_lower(a[i]) by {
        assert(crate::text::ascii_lower(a[i]) == crate::text::ascii_lower(b[i]));
    }
}

/// Storing a repository that passed the directory check keeps the
/// repositories sound: ids stay unique and directories stay distinct.
pub proof fn law_store_keeps_registry_sound(rs: Seq<Repository>, saved: Repository)
    requires
        registry_sound(rs),
        !path_taken(rs, saved.id@, saved.local_path@),
    ensures
        registry_sound(upserted(rs, saved)),
{
    lemma_index_of_id(rs, saved.id@);
    let out = upserted(rs, saved);
    match index_of_id(rs, saved.id@) {
        Some(k) => {
            assert forall|i: int, j: int|
                0 <= i < out.len() && 0 <= j < out.len() && i != j implies out[i].id@ != out[j].id@ by {
                if i == k {
                    assert(rs[j].id@ != rs[k].id@);
                } else if j == k {
                    assert(rs[i].id@ != rs[k].id@);
                }
            }
            assert forall|i: int, j: int|
                0 <= i < out.len() && 0 <= j < out.len() && i != j implies !eq_ignore_case(
                #[trigger] out[i].local_path@,
                #[trigger] out[j].local_path@,
            ) by {
                if i == k {
                    assert(rs[j].id@ != saved.id@);
                    if eq_ignore_case(saved.local_path@, rs[j].local_path@) {
                        lemma_eq_ignore_case_symmetric(saved.local_path@, rs[j].local_path@);
                        assert(path_taken(rs, saved.id@, saved.local_path@));
                    }
                } else if j == k {
                    assert(rs[i].id@ != saved.id@);
                    if eq_ignore_case(rs[i].local_path@, saved.local_path@) {
                        assert(path_taken(rs, saved.id@, saved.local_path@));
                    }
                }
            }
        },
        None => {
            let n = rs.len() as int;
            assert forall|i: int, j: int|
                0 <= i < out.len() && 0 <= j < out.len() && i != j implies out[i].id@ != out[j].id@ by {
                if i == n {
                    assert(rs[j].id@ != saved.id@);
                } else if j == n {
                    assert(rs[i].id@ != saved.id@);
                }
            }
            assert forall|i: int, j: int|
                0 <= i < out.len() && 0 <= j < out.len() && i != j implies !eq_ignore_case(
                #[trigger] out[i].local_path@,
                #[trigger] out[j].local_path@,
            ) by {
                if i == n {
                    if eq_ignore_case(saved.local_path@, rs[j].local_path@) {
                        lemma_eq_ignore_case_symmetric(saved.local_path@, rs[j].local_path@);
                        assert(path_taken(rs, saved.id@, saved.local_path@));
                    }
                } else if j == n {
                    if eq_ignore_case(rs[i].local_path@, saved.local_path@) {
                        assert(path_taken(rs, saved.id@, saved.local_path@));
                    }
                }
            }
        },
    }
}

/// After deleting by id, no repository with that id is left, and every other
/// repository is kept in order.
pub proof fn law_deleted_repository_is_gone(rs: Seq<Repository>, id: Seq<char>)
    ensures
        forall|i: int| 0 <= i < without_id(rs, id).len() ==> (#[trigger] without_id(rs, id)[i]).id@ != id,
        without_id(rs, id).len() <= rs.len(),
        (forall|i: int| 0 <= i < rs.len() ==> rs[i].id@ != id) ==> without_id(rs, id) == rs,
    decreases rs.len(),
{
    if rs.len() > 0 {
        law_deleted_repository_is_gone(rs.drop_last(), id);
        if (forall|i: int| 0 <= i < rs.len() ==> rs[i].id@ != id) {
            assert(rs.last().id@ != id);
            assert(rs.drop_last().push(rs.last()) =~= rs);
        }
    } else {
        assert(rs =~= Seq::<Repository>::empty());
    }
}

/// Saving settings twice changes nothing the second time: sanitized
/// settings are already within their ranges.
pub proof fn law_sanitize_idempotent(a: Settings, b: Settings, c: Settings)
    requires
        sanitized(a, b),
        sanitized(b, c),
    ensures
        c.max_log_size_mb == b.max_log_size_mb,
        c.contrast == b.contrast,
        c.ui_font_size == b.ui_font_size,
        c.code_font_size == b.code_font_size,
        c.repositories@ == b.repositories@,
{
    assert forall|i: int| 0 <= i < b.repositories@.len() implies c.repositories@[i] == b.repositories@[i] by {
        assert(c.repositories@[i] == (Repository {
            interval_minutes: clamp_interval(b.repositories@[i].interval_minutes),
            ..b.repositories@[i]
        }));
        assert(b.repositories@[i] == (Repository {
            interval_minutes: clamp_interval(a.repositories@[i].interval_minutes),
            ..a.repositories@[i]
        }));
    }
    assert(c.repositories@ =~= b.repositories@);
}

/// A repository whose task runs is never picked by the scheduler, nor one
/// without automatic pulls.
pub proof fn law_scheduler_skips_running(r: Repository, now: Timestamp)
    requires
        r.is_running || !r.auto_pull,
    ensures
        !is_due(r, now),
{
}

} // verus!

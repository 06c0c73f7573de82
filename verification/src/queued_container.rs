use vstd::prelude::*;
use vstd::string::StringExecFns;

use crate::text::{
    chars_eq_str, chars_start_with_str, chars_to_string, is_comment_line, is_space_char,
    join_lines, split_lines, split_lines_exec, split_words, split_words_exec, str_chars,
};

verus! {

// The launch-request entity and its validator: a raw command line is
// normalized to a single line, must begin with the runtime invocation prefix,
// and must carry exactly one detach flag among the option words that follow
// the prefix.

/// Why a submitted command was rejected, or what went wrong around it.
#[derive(Debug)]
pub enum QueuedContainerError {
    /// The command is not an acceptable `docker run` invocation.
    InvalidQueuedCommand(String),
    /// A failure outside the validation rules themselves.
    UnexpectedError(String),
}

/// Whether a pending request is eligible for promotion (`Queued`) or parked
/// (`Paused`).
#[derive(Clone, Copy, Debug, PartialEq, Eq, Structural)]
pub enum QueuedContainerStatus {
    Queued,
    Paused,
}

/// The display label of a status.
pub open spec fn status_label(s: QueuedContainerStatus) -> Seq<char> {
    match s {
        QueuedContainerStatus::Queued => "Queued"@,
        QueuedContainerStatus::Paused => "Paused"@,
    }
}

impl QueuedContainerStatus {
    /// The display label of this status.
    pub fn as_str(&self) -> (r: &'static str)
        ensures
            r@ == status_label(*self),
    {
        match self {
            QueuedContainerStatus::Queued => "Queued",
            QueuedContainerStatus::Paused => "Paused",
        }
    }
}

/// A validated launch request: immutable identity and command, and a status
/// the submitter may still flip between `Queued` and `Paused`.
#[derive(Debug)]
pub struct QueuedContainer {
    id: String,
    command: String,
    status: QueuedContainerStatus,
}

/// What one character of a raw command contributes to the normalized command:
/// line feeds become spaces, line-continuation backslashes disappear.
pub open spec fn norm_char(c: char) -> Seq<char> {
    if c == '\\' {
        seq![]
    } else if c == '\n' {
        seq![' ']
    } else {
        seq![c]
    }
}

/// The raw command joined to a single line: every line feed replaced by a
/// space and every backslash removed.
pub open spec fn normalize_command(s: Seq<char>) -> Seq<char>
    decreases s.len(),
{
    if s.len() == 0 {
        seq![]
    } else {
        normalize_command(s.drop_last()) + norm_char(s.last())
    }
}

/// Whether a normalized command begins with the runtime invocation prefix.
pub open spec fn has_run_prefix(s: Seq<char>) -> bool {
    "docker run"@.is_prefix_of(s)
}

/// An option word: non-empty and introduced by a dash.
pub open spec fn is_option_word(w: Seq<char>) -> bool {
    w.len() > 0 && w[0] == '-'
}

/// One of the accepted spellings of the detach flag.
pub open spec fn is_detach_word(w: Seq<char>) -> bool {
    w == "-d"@ || w == "--detach"@ || w == "--detach=true"@
}

/// How many detach flags appear in the leading run of option words.
pub open spec fn detach_count_in(ws: Seq<Seq<char>>) -> nat
    decreases ws.len(),
{
    if ws.len() == 0 || !is_option_word(ws[0]) {
        0
    } else {
        (if is_detach_word(ws[0]) {
            1nat
        } else {
            0nat
        }) + detach_count_in(ws.skip(1))
    }
}

/// How many detach flags appear among the option words that immediately
/// follow the two invocation words of a normalized command.
pub open spec fn detach_flag_count(s: Seq<char>) -> nat {
    let ws = split_words(s);
    if ws.len() < 2 {
        0
    } else {
        detach_count_in(ws.skip(2))
    }
}

/// A command that validation accepts: once normalized it carries the
/// invocation prefix and exactly one detach flag among its leading options.
pub open spec fn is_valid_command(raw: Seq<char>) -> bool {
    &&& has_run_prefix(normalize_command(raw))
    &&& detach_flag_count(normalize_command(raw)) == 1
}

/// The rejection message for a command without the invocation prefix.
pub open spec fn missing_prefix_message(raw: Seq<char>) -> Seq<char> {
    "Should start with \"docker run\": "@ + raw
}

/// The rejection message for a command without exactly one detach flag.
pub open spec fn missing_detach_message(norm: Seq<char>) -> Seq<char> {
    "Include a detach flag such as: \"-d\" or \"--detach\": "@ + norm
}

/// Everything validation promises of its result for a given raw command: it
/// succeeds exactly on valid commands, stores the normalized command with a
/// fresh id and the `Paused` default status, and names the broken rule in the
/// rejection message.
pub open spec fn validation_result(
    raw: Seq<char>,
    r: Result<QueuedContainer, QueuedContainerError>,
) -> bool {
    &&& (r is Ok <==> is_valid_command(raw))
    &&& (r matches Ok(c) ==> {
        &&& c.command_spec() == normalize_command(raw)
        &&& c.status_spec() == QueuedContainerStatus::Paused
        &&& c.id_spec().len() == 36
    })
    &&& (r matches Err(e) ==> e matches QueuedContainerError::InvalidQueuedCommand(m) && m@ == (
    if !has_run_prefix(normalize_command(raw)) {
        missing_prefix_message(raw)
    } else {
        missing_detach_message(normalize_command(raw))
    }))
}

/// Relies on `uuid::Uuid::new_v4` and its `Display` implementation: a fresh
/// random identifier rendered in the 36-character hyphenated form.
#[verifier::external_body]
fn fresh_request_id() -> (r: String)
    ensures
        r@.len() == 36,
{
    uuid::Uuid::new_v4().to_string()
}

/// The raw command with every line feed replaced by a space and every
/// backslash removed.
fn normalize_chars(chars: &Vec<char>) -> (r: Vec<char>)
    ensures
        r@ == normalize_command(chars@),
{
    let mut r: Vec<char> = Vec::new();
    let mut i: usize = 0;
    while i < chars.len()
        invariant
            i <= chars@.len(),
            r@ == normalize_command(chars@.take(i as int)),
        decreases chars@.len() - i,
    {
        let ghost prev = r@;
        let c = chars[i];
        if c == '\\' {
        } else if c == '\n' {
            r.push(' ');
        } else {
            r.push(c);
        }
        proof {
            assert(chars@.take(i + 1).drop_last() =~= chars@.take(i as int));
            assert(r@ =~= prev + norm_char(chars@[i as int]));
        }
        i += 1;
    }
    proof {
        assert(chars@.take(chars@.len() as int) =~= chars@);
    }
    r
}

/// Whether `w` is an option word: non-empty and introduced by a dash.
fn is_option_flag(w: &Vec<char>) -> (r: bool)
    ensures
        r == is_option_word(w@),
{
    w.len() > 0 && w[0] == '-'
}

/// Whether `w` is one of the accepted detach-flag spellings.
fn is_detach_flag(w: &Vec<char>) -> (r: bool)
    ensures
        r == is_detach_word(w@),
{
    chars_eq_str(w, "-d") || chars_eq_str(w, "--detach") || chars_eq_str(w, "--detach=true")
}

/// How many detach flags appear among the option words that immediately
/// follow the two invocation words.
fn count_detach_flags(words: &Vec<Vec<char>>) -> (r: usize)
    ensures
        r == detach_flag_count_on(words.deep_view()),
{
    let ghost ws = words.deep_view();
    if words.len() < 2 {
        return 0;
    }
    let mut k: usize = 2;
    let mut count: usize = 0;
    while k < words.len() && is_option_flag(&words[k])
        invariant
            2 <= k <= ws.len(),
            ws.len() == words@.len(),
            ws == words.deep_view(),
            count <= k - 2,
            count + detach_count_in(ws.skip(k as int)) == detach_count_in(ws.skip(2)),
            forall|j: int| 2 <= j < k ==> is_option_word(ws[j]),
        decreases ws.len() - k,
    {
        proof {
            assert(ws[k as int] =~= words@[k as int]@);
            assert(is_option_word(ws[k as int]));
            assert(ws.skip(k as int).skip(1) =~= ws.skip(k as int + 1));
        }
        if is_detach_flag(&words[k]) {
            count += 1;
        }
        k += 1;
    }
    proof {
        if k < words.len() {
            assert(ws[k as int] =~= words@[k as int]@);
            assert(!is_option_word(ws[k as int]));
        }
        assert(detach_count_in(ws.skip(k as int)) == 0);
    }
    count
}

/// `detach_flag_count` stated on an already-split word sequence.
pub open spec fn detach_flag_count_on(ws: Seq<Seq<char>>) -> nat {
    if ws.len() < 2 {
        0
    } else {
        detach_count_in(ws.skip(2))
    }
}

impl QueuedContainer {
    /// The request's identifier.
    pub closed spec fn id_spec(&self) -> Seq<char> {
        self.id@
    }

    /// The request's stored, normalized command.
    pub closed spec fn command_spec(&self) -> Seq<char> {
        self.command@
    }

    /// The request's status.
    pub closed spec fn status_spec(&self) -> QueuedContainerStatus {
        self.status
    }

    /// Validate a raw launch command: normalized to one line, it must begin
    /// with `docker run` and carry exactly one detach flag (`-d`, `--detach`
    /// or `--detach=true`) among the option words that follow; the accepted
    /// request stores the normalized command, a fresh id, and the `Paused`
    /// default status.
    pub fn new(command: &str) -> (r: Result<Self, QueuedContainerError>)
        ensures
            validation_result(command@, r),
    {
        let chars = str_chars(command);
        let norm = normalize_chars(&chars);
        if !chars_start_with_str(&norm, "docker run") {
            let mut m = "Should start with \"docker run\": ".to_owned();
            m.append(command);
            return Err(QueuedContainerError::InvalidQueuedCommand(m));
        }
        let words = split_words_exec(&norm);
        let count = count_detach_flags(&words);
        if count != 1 {
            let shown = chars_to_string(&norm);
            let mut m = "Include a detach flag such as: \"-d\" or \"--detach\": ".to_owned();
            m.append(shown.as_str());
            return Err(QueuedContainerError::InvalidQueuedCommand(m));
        }
        let id = fresh_request_id();
        let stored = chars_to_string(&norm);
        Ok(QueuedContainer { id, command: stored, status: QueuedContainerStatus::Paused })
    }

    /// A request rebuilt from its transmitted parts, exactly as they arrived:
    /// what a submission carries over the wire, with no re-validation — the
    /// submitter validated the command when it created the request.
    pub fn from_parts(id: String, command: String, status: QueuedContainerStatus) -> (r: Self)
        ensures
            r.id_spec() == id@,
            r.command_spec() == command@,
            r.status_spec() == status,
    {
        QueuedContainer { id, command, status }
    }

    /// The request's identifier, as an owned string.
    pub fn id(&self) -> (r: String)
        ensures
            r@ == self.id_spec(),
    {
        self.id.clone()
    }

    /// The request's stored command.
    pub fn command(&self) -> (r: &str)
        ensures
            r@ == self.command_spec(),
    {
        self.command.as_str()
    }

    /// The request's status.
    pub fn status(&self) -> (r: &QueuedContainerStatus)
        ensures
            *r == self.status_spec(),
    {
        &self.status
    }

    /// Make the request eligible for promotion.
    pub fn queue(&mut self)
        ensures
            final(self).status_spec() == QueuedContainerStatus::Queued,
            final(self).id_spec() == old(self).id_spec(),
            final(self).command_spec() == old(self).command_spec(),
    {
        self.status = QueuedContainerStatus::Queued;
    }

    /// Park the request: it stays in the queue but is never promoted.
    pub fn pause(&mut self)
        ensures
            final(self).status_spec() == QueuedContainerStatus::Paused,
            final(self).id_spec() == old(self).id_spec(),
            final(self).command_spec() == old(self).command_spec(),
    {
        self.status = QueuedContainerStatus::Paused;
    }

    /// Whether the request is parked.
    pub fn is_paused(&self) -> (r: bool)
        ensures
            r == (self.status_spec() == QueuedContainerStatus::Paused),
    {
        self.status == QueuedContainerStatus::Paused
    }

    /// Whether the request is eligible for promotion.
    pub fn is_queued(&self) -> (r: bool)
        ensures
            r == (self.status_spec() == QueuedContainerStatus::Queued),
    {
        self.status == QueuedContainerStatus::Queued
    }
}

/// Length of a command's first word as `split_once` sees it: the characters
/// before the first space.
pub open spec fn before_space_len(s: Seq<char>) -> nat
    decreases s.len(),
{
    if s.len() == 0 || s[0] == ' ' {
        0
    } else {
        1 + before_space_len(s.skip(1))
    }
}

pub proof fn lemma_before_space_exact(s: Seq<char>, m: int)
    requires
        0 <= m <= s.len(),
        forall|k: int| 0 <= k < m ==> s[k] != ' ',
        m == s.len() || s[m] == ' ',
    ensures
        before_space_len(s) == m,
    decreases m,
{
    if m > 0 {
        lemma_before_space_exact(s.skip(1), m - 1);
    }
}

/// What follows a command's first space: the part handed to the shell-word
/// splitter.
pub open spec fn after_first_space(s: Seq<char>) -> Seq<char> {
    s.skip(before_space_len(s) as int + 1)
}

/// A command that validation accepted always contains a space — the one
/// inside its invocation prefix — so the argument words of a validated
/// request can always be asked for.
pub proof fn lemma_valid_command_contains_space(raw: Seq<char>)
    requires
        is_valid_command(raw),
    ensures
        normalize_command(raw).contains(' '),
{
    reveal_strlit("docker run");
    let n = normalize_command(raw);
    assert(n.subrange(0, 10) =~= "docker run"@);
    assert(n[6] == "docker run"@[6]);
    assert(n[6] == ' ');
}

/// The shell-word splitting of `s`, as `shellwords::split` performs it: a
/// function of the input characters alone.
pub uninterp spec fn shell_words_of(s: Seq<char>) -> Seq<Seq<char>>;

/// Whether `shellwords::split` accepts `s`: its quoting is balanced. Like
/// the splitting itself, a function of the input characters alone.
pub uninterp spec fn shell_split_ok(s: Seq<char>) -> bool;

/// Relies on `shellwords::split`: Bourne-shell word splitting, deterministic
/// in the input; it fails on mismatched quotes, which this wrapper reports as
/// `None`.
#[verifier::external_body]
fn shell_split(s: &str) -> (r: Option<Vec<String>>)
    ensures
        r is Some <==> shell_split_ok(s@),
        r matches Some(v) ==> v.deep_view() == shell_words_of(s@),
{
    match shellwords::split(s) {
        Ok(v) => Some(v),
        Err(_) => None,
    }
}

/// The lines of a command script that count: those whose first non-space
/// character is not `#`, joined back with line feeds.
pub open spec fn script_command(text: Seq<char>) -> Seq<char> {
    join_lines(crate::text::kept_lines(split_lines(text)))
}

/// Joining one more line appends a line-feed separator unless nothing was
/// joined yet.
proof fn lemma_tail_join_push(ls: Seq<Seq<char>>, l: Seq<char>)
    ensures
        crate::text::tail_join(ls.push(l)) =~= crate::text::tail_join(ls) + seq!['\n'] + l,
    decreases ls.len(),
{
    reveal_with_fuel(crate::text::tail_join, 3);
    if ls.len() == 0 {
        assert(ls.push(l).skip(1) =~= Seq::<Seq<char>>::empty());
        assert(ls.push(l)[0] == l);
        assert(crate::text::tail_join(ls.push(l)) =~= seq!['\n'] + l);
        assert(crate::text::tail_join(ls) + seq!['\n'] + l =~= seq!['\n'] + l);
    } else {
        lemma_tail_join_push(ls.skip(1), l);
        assert(ls.push(l).skip(1) =~= ls.skip(1).push(l));
        assert(ls.push(l)[0] == ls[0]);
        assert(crate::text::tail_join(ls.push(l)) =~= seq!['\n'] + ls[0] + (crate::text::tail_join(
            ls.skip(1),
        ) + seq!['\n'] + l));
    }
}

proof fn lemma_join_lines_push(ls: Seq<Seq<char>>, l: Seq<char>)
    ensures
        join_lines(ls.push(l)) =~= if ls.len() == 0 {
            l
        } else {
            join_lines(ls) + seq!['\n'] + l
        },
{
    if ls.len() == 0 {
        assert(ls.push(l)[0] == l);
        assert(ls.push(l).skip(1) =~= Seq::<Seq<char>>::empty());
    } else {
        lemma_tail_join_push(ls.skip(1), l);
        assert(ls.push(l).skip(1) =~= ls.skip(1).push(l));
        assert(ls.push(l)[0] == ls[0]);
    }
}

/// Whether a line is ignored by the script reader.
fn is_comment_line_exec(l: &Vec<char>) -> (r: bool)
    ensures
        r == is_comment_line(l@),
{
    let mut j: usize = 0;
    while j < l.len() && crate::text::space_char(l[j])
        invariant
            j <= l@.len(),
            forall|k: int| 0 <= k < j ==> is_space_char(l@[k]),
        decreases l@.len() - j,
    {
        j += 1;
    }
    proof {
        crate::text::lemma_trim_start_exact(l@, j as int);
    }
    if j < l.len() {
        l[j] == '#'
    } else {
        false
    }
}

/// The command text a script yields: its lines with comment lines dropped,
/// joined back with line feeds.
pub fn command_from_script(text: &str) -> (r: String)
    ensures
        r@ == script_command(text@),
{
    let chars = str_chars(text);
    let lines = split_lines_exec(&chars);
    let mut kept: Vec<Vec<char>> = Vec::new();
    let mut i: usize = 0;
    proof {
        assert(lines.deep_view().take(0) =~= Seq::<Seq<char>>::empty());
        assert(kept.deep_view() =~= crate::text::kept_lines(lines.deep_view().take(0)));
    }
    while i < lines.len()
        invariant
            i <= lines@.len(),
            lines@.len() == lines.deep_view().len(),
            kept.deep_view() =~= crate::text::kept_lines(lines.deep_view().take(i as int)),
        decreases lines@.len() - i,
    {
        let ghost prev = kept.deep_view();
        let ghost dv = lines.deep_view();
        let keep = !is_comment_line_exec(&lines[i]);
        if keep {
            let line = lines[i].clone();
            proof {
                assert(line@ =~= lines@[i as int]@);
            }
            kept.push(line);
            proof {
                assert(kept.deep_view() =~~= prev.push(dv[i as int]));
            }
        }
        proof {
            assert(dv[i as int] =~= lines@[i as int]@);
            assert(dv.take(i + 1).drop_last() =~= dv.take(i as int));
            assert(dv.take(i + 1).last() == dv[i as int]);
            assert(kept.deep_view() =~= crate::text::kept_lines(dv.take(i + 1)));
        }
        i += 1;
    }
    proof {
        assert(lines.deep_view().take(lines@.len() as int) =~= lines.deep_view());
    }
    let ghost kd = kept.deep_view();
    let mut out: Vec<char> = Vec::new();
    let mut j: usize = 0;
    proof {
        assert(kd.take(0) =~= Seq::<Seq<char>>::empty());
        assert(out@ =~= join_lines(kd.take(0)));
    }
    while j < kept.len()
        invariant
            j <= kept@.len(),
            kept@.len() == kd.len(),
            kd == kept.deep_view(),
            out@ =~= join_lines(kd.take(j as int)),
        decreases kept@.len() - j,
    {
        let ghost prev = out@;
        if j > 0 {
            out.push('\n');
        }
        let mut p: usize = 0;
        let ghost mid = out@;
        while p < kept[j].len()
            invariant
                p <= kept@[j as int]@.len(),
                j < kept@.len(),
                out@ =~= mid + kept@[j as int]@.take(p as int),
            decreases kept@[j as int]@.len() - p,
        {
            out.push(kept[j][p]);
            proof {
                assert(kept@[j as int]@.take(p + 1) =~= kept@[j as int]@.take(p as int).push(
                    kept@[j as int]@[p as int],
                ));
            }
            p += 1;
        }
        proof {
            assert(kept@[j as int]@.take(kept@[j as int]@.len() as int) =~= kd[j as int]);
            lemma_join_lines_push(kd.take(j as int), kd[j as int]);
            assert(kd.take(j + 1) =~= kd.take(j as int).push(kd[j as int]));
            if j == 0 {
                assert(out@ =~= join_lines(kd.take(j + 1)));
            } else {
                assert(out@ =~= join_lines(kd.take(j as int)) + seq!['\n'] + kd[j as int]);
                assert(out@ =~= join_lines(kd.take(j + 1)));
            }
        }
        j += 1;
    }
    proof {
        assert(kd.take(kept@.len() as int) =~= kd);
    }
    chars_to_string(&out)
}

impl QueuedContainer {
    /// Validate the launch command a script holds: the script's non-comment
    /// lines joined with line feeds, run through the same validation as a
    /// directly submitted command.
    pub fn from_script(text: &str) -> (r: Result<Self, QueuedContainerError>)
        ensures
            validation_result(script_command(text@), r),
    {
        let command = command_from_script(text);
        Self::new(command.as_str())
    }

    /// The words handed to the runtime: everything after the leading `docker`
    /// word, split as the shell would; `Err` when the quoting cannot be
    /// parsed.
    pub fn get_cmd_args(&self) -> (r: Result<Vec<String>, QueuedContainerError>)
        requires
            self.command_spec().contains(' '),
        ensures
            r is Ok <==> shell_split_ok(after_first_space(self.command_spec())),
            r matches Ok(args) ==> args.deep_view() == shell_words_of(
                after_first_space(self.command_spec()),
            ),
            r matches Err(e) ==> e matches QueuedContainerError::UnexpectedError(m) && m@
                == "Failed to split args."@,
    {
        let cs = str_chars(self.command.as_str());
        let mut i: usize = 0;
        while i < cs.len() && cs[i] != ' '
            invariant
                i <= cs@.len(),
                cs@ == self.command_spec(),
                forall|k: int| 0 <= k < i ==> cs@[k] != ' ',
            decreases cs@.len() - i,
        {
            i += 1;
        }
        proof {
            if i == cs@.len() {
                let w = choose|k: int| 0 <= k < cs@.len() && cs@[k] == ' ';
                assert(cs@[w] == ' ');
                assert(false);
            }
            lemma_before_space_exact(cs@, i as int);
        }
        let tail = self.command.as_str().substring_char(i + 1, cs.len());
        match shell_split(tail) {
            Some(args) => Ok(args),
            None => Err(QueuedContainerError::UnexpectedError("Failed to split args.".to_owned())),
        }
    }
}

impl Clone for QueuedContainer {
    /// An exact copy of the request.
    fn clone(&self) -> (r: Self)
        ensures
            r == *self,
    {
        QueuedContainer {
            id: self.id.clone(),
            command: self.command.clone(),
            status: self.status,
        }
    }
}

} // verus!

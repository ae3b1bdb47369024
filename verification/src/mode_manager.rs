//! The vi-like mode machine: the current mode, the `:` command line with its
//! parser, and the pending normal-mode key sequence.
use vstd::prelude::*;
use crate::text::{
    all_digits, all_white_space, chars_equal, chars_of, copy_range, find_char, first_index_of,
    is_ascii_digit, lemma_first_index_of, lemma_trim_around, parse_usize, parse_usize_chars,
    starts_with, starts_with_chars, string_from_chars, string_pop, string_push, trim, trim_chars,
    unsigned_digits,
};

verus! {

/// The editing modes.
#[derive(Debug, Clone, Copy, PartialEq, Eq, Structural)]
pub enum Mode {
    Normal,
    Visual,
    Insert,
    Command,
}

/// The name shown for each mode.
pub open spec fn mode_name(m: Mode) -> Seq<char> {
    match m {
        Mode::Normal => seq!['N', 'O', 'R', 'M', 'A', 'L'],
        Mode::Visual => seq!['V', 'I', 'S', 'U', 'A', 'L'],
        Mode::Insert => seq!['I', 'N', 'S', 'E', 'R', 'T'],
        Mode::Command => seq!['C', 'O', 'M', 'M', 'A', 'N', 'D'],
    }
}

impl Mode {
    /// The upper-case name of the mode.
    pub fn name(&self) -> (n: &'static str)
        ensures
            n@ == mode_name(*self),
    {
        match self {
            Mode::Normal => {
                proof {
                    reveal_strlit("NORMAL");
                }
                "NORMAL"
            },
            Mode::Visual => {
                proof {
                    reveal_strlit("VISUAL");
                }
                "VISUAL"
            },
            Mode::Insert => {
                proof {
                    reveal_strlit("INSERT");
                }
                "INSERT"
            },
            Mode::Command => {
                proof {
                    reveal_strlit("COMMAND");
                }
                "COMMAND"
            },
        }
    }
}

/// A command entered on the `:` line.
#[derive(Clone, Debug, PartialEq)]
pub enum CommandAction {
    Save,
    SaveAs(String),
    Quit,
    ForceQuit,
    Open(String),
    GoToLine(usize),
    Search(String),
    Replace { from: String, to: String },
}

/// A command with its texts taken as character sequences.
pub enum CommandSpec {
    Save,
    SaveAs(Seq<char>),
    Quit,
    ForceQuit,
    Open(Seq<char>),
    GoToLine(usize),
    Search(Seq<char>),
    Replace(Seq<char>, Seq<char>),
}

impl View for CommandAction {
    type V = CommandSpec;

    open spec fn view(&self) -> CommandSpec {
        match self {
            CommandAction::Save => CommandSpec::Save,
            CommandAction::SaveAs(f) => CommandSpec::SaveAs(f@),
            CommandAction::Quit => CommandSpec::Quit,
            CommandAction::ForceQuit => CommandSpec::ForceQuit,
            CommandAction::Open(f) => CommandSpec::Open(f@),
            CommandAction::GoToLine(n) => CommandSpec::GoToLine(*n),
            CommandAction::Search(t) => CommandSpec::Search(t@),
            CommandAction::Replace { from, to } => CommandSpec::Replace(from@, to@),
        }
    }
}

/// An optional command taken as a `CommandSpec`.
pub open spec fn action_view(a: Option<CommandAction>) -> Option<CommandSpec> {
    match a {
        Some(a) => Some(a@),
        None => None,
    }
}

/// An action completed by a normal-mode key sequence.
#[derive(Clone, Copy, Debug, PartialEq, Eq, Structural)]
pub enum NormalModeAction {
    DeleteLine,
    YankLine,
    PutAfter,
    PutBefore,
    GoToTop,
    GoToBottom,
    DeleteChar,
    Undo,
    Redo,
}

/// The commands that are looked up by their whole text: `w` and `wq` save,
/// `q` quits and `q!` quits without asking.
pub open spec fn named_command(cmd: Seq<char>) -> Option<CommandSpec> {
    if cmd == seq!['w'] || cmd == seq!['w', 'q'] {
        Some(CommandSpec::Save)
    } else if cmd == seq!['q'] {
        Some(CommandSpec::Quit)
    } else if cmd == seq!['q', '!'] {
        Some(CommandSpec::ForceQuit)
    } else {
        None
    }
}

/// The `from` and `to` texts of a `%s/from/to/...` command whose part after
/// `%s/` is `rest`: `rest` split at `/`, its first two pieces.
pub open spec fn replace_parts(rest: Seq<char>) -> (Seq<char>, Seq<char>) {
    let i = first_index_of(rest, '/') as int;
    let after = rest.subrange(i + 1, rest.len() as int);
    (rest.subrange(0, i), after.subrange(0, first_index_of(after, '/') as int))
}

/// The command that the trimmed command line `cmd` stands for, tried in
/// this order: `e <file>`, `w <file>`, a line number, `/<term>`,
/// `%s/<from>/<to>`, then the named commands.
pub open spec fn command_for(cmd: Seq<char>) -> Option<CommandSpec> {
    if starts_with(cmd, seq!['e', ' ']) {
        Some(CommandSpec::Open(trim(cmd.subrange(2, cmd.len() as int))))
    } else if starts_with(cmd, seq!['w', ' ']) {
        Some(CommandSpec::SaveAs(trim(cmd.subrange(2, cmd.len() as int))))
    } else if parse_usize(cmd) is Some {
        Some(CommandSpec::GoToLine(parse_usize(cmd)->0))
    } else if starts_with(cmd, seq!['/']) {
        Some(CommandSpec::Search(cmd.subrange(1, cmd.len() as int)))
    } else if starts_with(cmd, seq!['%', 's', '/']) && cmd.subrange(3, cmd.len() as int).contains(
        '/',
    ) {
        let parts = replace_parts(cmd.subrange(3, cmd.len() as int));
        Some(CommandSpec::Replace(parts.0, parts.1))
    } else {
        named_command(cmd)
    }
}

/// Whether `seq` is `r` followed by one more key, whatever it is.
pub open spec fn is_redo_sequence(seq: Seq<char>) -> bool {
    seq.len() == 2 && seq[0] == 'r'
}

/// The action that the key sequence `seq` completes, if any.
pub open spec fn normal_action_for(seq: Seq<char>) -> Option<NormalModeAction> {
    if seq == seq!['d', 'd'] {
        Some(NormalModeAction::DeleteLine)
    } else if seq == seq!['y', 'y'] {
        Some(NormalModeAction::YankLine)
    } else if seq == seq!['p'] {
        Some(NormalModeAction::PutAfter)
    } else if seq == seq!['P'] {
        Some(NormalModeAction::PutBefore)
    } else if seq == seq!['g', 'g'] {
        Some(NormalModeAction::GoToTop)
    } else if seq == seq!['G'] {
        Some(NormalModeAction::GoToBottom)
    } else if seq == seq!['x'] {
        Some(NormalModeAction::DeleteChar)
    } else if seq == seq!['u'] {
        Some(NormalModeAction::Undo)
    } else if is_redo_sequence(seq) {
        Some(NormalModeAction::Redo)
    } else {
        None
    }
}

/// The key sequence left after `normal_action_for` was looked up on `seq`:
/// cleared when an action completed or when more than three keys piled up.
pub open spec fn sequence_after_lookup(seq: Seq<char>) -> Seq<char> {
    if normal_action_for(seq) is Some || seq.len() > 3 {
        Seq::empty()
    } else {
        seq
    }
}

/// Whether `seq` is the start of a longer command (`d`, `g` or `r`).
pub open spec fn is_pending_sequence(seq: Seq<char>) -> bool {
    seq == seq!['d'] || seq == seq!['g'] || seq == seq!['r']
}

/// The state of a `ModeManager` as its users see it.
pub struct ModeManagerState {
    pub mode: Mode,
    pub command_buffer: Seq<char>,
    pub key_sequence: Seq<char>,
}

/// A call that changes a `ModeManager`.
pub enum ModeCall {
    SetMode(Mode),
    AddToCommandBuffer(char),
    ClearCommandBuffer,
    BackspaceCommandBuffer,
    ExecuteCommand,
    AddKeyToSequence(char),
    ClearKeySequence,
    ProcessNormalModeKeys,
}

/// The state of a mode machine after call `c`.
pub open spec fn after_call(m: ModeManagerState, c: ModeCall) -> ModeManagerState {
    match c {
        ModeCall::SetMode(mode) => ModeManagerState {
            mode,
            command_buffer: Seq::empty(),
            key_sequence: Seq::empty(),
        },
        ModeCall::AddToCommandBuffer(ch) => ModeManagerState {
            command_buffer: m.command_buffer.push(ch),
            ..m
        },
        ModeCall::ClearCommandBuffer => ModeManagerState { command_buffer: Seq::empty(), ..m },
        ModeCall::BackspaceCommandBuffer => ModeManagerState {
            command_buffer: if m.command_buffer.len() == 0 {
                m.command_buffer
            } else {
                m.command_buffer.drop_last()
            },
            ..m
        },
        ModeCall::ExecuteCommand => ModeManagerState { command_buffer: Seq::empty(), ..m },
        ModeCall::AddKeyToSequence(key) => ModeManagerState {
            key_sequence: m.key_sequence.push(key),
            ..m
        },
        ModeCall::ClearKeySequence => ModeManagerState { key_sequence: Seq::empty(), ..m },
        ModeCall::ProcessNormalModeKeys => ModeManagerState {
            key_sequence: sequence_after_lookup(m.key_sequence),
            ..m
        },
    }
}

/// The state of a mode machine after the calls `calls`, in order.
pub open spec fn after_calls(m: ModeManagerState, calls: Seq<ModeCall>) -> ModeManagerState
    decreases calls.len(),
{
    if calls.len() == 0 {
        m
    } else {
        after_call(after_calls(m, calls.drop_last()), calls.last())
    }
}

/// The mode set by the last `SetMode` of `calls`, or `mode` when there is
/// none.
pub open spec fn last_set_mode(mode: Mode, calls: Seq<ModeCall>) -> Mode
    decreases calls.len(),
{
    if calls.len() == 0 {
        mode
    } else {
        match calls.last() {
            ModeCall::SetMode(m) => m,
            _ => last_set_mode(mode, calls.drop_last()),
        }
    }
}

/// The mode machine.
#[derive(Clone, Debug, PartialEq)]
pub struct ModeManager {
    current_mode: Mode,
    command_buffer: String,
    key_sequence: Vec<char>,
}

impl View for ModeManager {
    type V = ModeManagerState;

    closed spec fn view(&self) -> ModeManagerState {
        ModeManagerState {
            mode: self.current_mode,
            command_buffer: self.command_buffer@,
            key_sequence: self.key_sequence@,
        }
    }
}

/// Whether `v` holds exactly the characters `a`.
fn chars_are(v: &Vec<char>, a: &[char]) -> (b: bool)
    ensures
        b == (v@ == a@),
{
    chars_equal(v.as_slice(), a)
}

/// The named command whose text is `cmd` (see `named_command`).
fn named_command_action(cmd: &Vec<char>) -> (r: Option<CommandAction>)
    ensures
        action_view(r) == named_command(cmd@),
{
    let w: [char; 1] = ['w'];
    let wq: [char; 2] = ['w', 'q'];
    let q: [char; 1] = ['q'];
    let q_bang: [char; 2] = ['q', '!'];
    assert(w@ =~= seq!['w']);
    assert(wq@ =~= seq!['w', 'q']);
    assert(q@ =~= seq!['q']);
    assert(q_bang@ =~= seq!['q', '!']);
    if chars_are(cmd, &w) || chars_are(cmd, &wq) {
        Some(CommandAction::Save)
    } else if chars_are(cmd, &q) {
        Some(CommandAction::Quit)
    } else if chars_are(cmd, &q_bang) {
        Some(CommandAction::ForceQuit)
    } else {
        None
    }
}

impl ModeManager {
    /// A manager in normal mode with an empty command line and no pending keys.
    pub fn new() -> (m: ModeManager)
        ensures
            m@.mode == Mode::Normal,
            m@.command_buffer == Seq::<char>::empty(),
            m@.key_sequence == Seq::<char>::empty(),
    {
        ModeManager {
            current_mode: Mode::Normal,
            command_buffer: String::new(),
            key_sequence: Vec::new(),
        }
    }

    /// The current mode.
    pub fn current_mode(&self) -> (m: &Mode)
        ensures
            *m == self@.mode,
    {
        &self.current_mode
    }

    /// Switches to `mode`, dropping the command line and any pending keys.
    pub fn set_mode(&mut self, mode: Mode)
        ensures
            final(self)@ == after_call(old(self)@, ModeCall::SetMode(mode)),
            final(self)@.mode == mode,
            final(self)@.command_buffer == Seq::<char>::empty(),
            final(self)@.key_sequence == Seq::<char>::empty(),
    {
        self.current_mode = mode;
        self.clear_command_buffer();
        self.clear_key_sequence();
    }

    /// Appends `ch` to the command line.
    pub fn add_to_command_buffer(&mut self, ch: char)
        ensures
            final(self)@ == after_call(old(self)@, ModeCall::AddToCommandBuffer(ch)),
            final(self)@.command_buffer == old(self)@.command_buffer.push(ch),
            final(self)@.mode == old(self)@.mode,
            final(self)@.key_sequence == old(self)@.key_sequence,
    {
        string_push(&mut self.command_buffer, ch);
    }

    /// Empties the command line.
    pub fn clear_command_buffer(&mut self)
        ensures
            final(self)@ == after_call(old(self)@, ModeCall::ClearCommandBuffer),
            final(self)@.command_buffer == Seq::<char>::empty(),
            final(self)@.mode == old(self)@.mode,
            final(self)@.key_sequence == old(self)@.key_sequence,
    {
        self.command_buffer = String::new();
    }

    /// Removes the last character of the command line, if there is one.
    pub fn backspace_command_buffer(&mut self)
        ensures
            final(self)@ == after_call(old(self)@, ModeCall::BackspaceCommandBuffer),
            final(self)@.command_buffer == (if old(self)@.command_buffer.len() == 0 {
                old(self)@.command_buffer
            } else {
                old(self)@.command_buffer.drop_last()
            }),
            final(self)@.mode == old(self)@.mode,
            final(self)@.key_sequence == old(self)@.key_sequence,
    {
        let _ = string_pop(&mut self.command_buffer);
    }

    /// The text of the command line.
    pub fn command_buffer(&self) -> (s: &str)
        ensures
            s@ == self@.command_buffer,
    {
        self.command_buffer.as_str()
    }

    /// Parses the command line (see `command_for`) and empties it.
    pub fn execute_command(&mut self) -> (r: Option<CommandAction>)
        ensures
            final(self)@ == after_call(old(self)@, ModeCall::ExecuteCommand),
            action_view(r) == command_for(trim(old(self)@.command_buffer)),
            final(self)@.command_buffer == Seq::<char>::empty(),
            final(self)@.mode == old(self)@.mode,
            final(self)@.key_sequence == old(self)@.key_sequence,
    {
        let raw = chars_of(self.command_buffer.as_str());
        let cmd = trim_chars(raw.as_slice());
        let ghost c = cmd@;
        let n = cmd.len();
        let e_prefix: Vec<char> = vec!['e', ' '];
        let w_prefix: Vec<char> = vec!['w', ' '];
        let slash_prefix: Vec<char> = vec!['/'];
        let replace_prefix: Vec<char> = vec!['%', 's', '/'];
        assert(e_prefix@ =~= seq!['e', ' ']);
        assert(w_prefix@ =~= seq!['w', ' ']);
        assert(slash_prefix@ =~= seq!['/']);
        assert(replace_prefix@ =~= seq!['%', 's', '/']);
        if starts_with_chars(cmd.as_slice(), e_prefix.as_slice()) {
            let rest = copy_range(cmd.as_slice(), 2, n);
            let filename = string_from_chars(trim_chars(rest.as_slice()).as_slice());
            self.clear_command_buffer();
            return Some(CommandAction::Open(filename));
        }
        if starts_with_chars(cmd.as_slice(), w_prefix.as_slice()) {
            let rest = copy_range(cmd.as_slice(), 2, n);
            let filename = string_from_chars(trim_chars(rest.as_slice()).as_slice());
            self.clear_command_buffer();
            return Some(CommandAction::SaveAs(filename));
        }
        if let Some(line_num) = parse_usize_chars(cmd.as_slice()) {
            self.clear_command_buffer();
            return Some(CommandAction::GoToLine(line_num));
        }
        if starts_with_chars(cmd.as_slice(), slash_prefix.as_slice()) {
            let term = string_from_chars(copy_range(cmd.as_slice(), 1, n).as_slice());
            self.clear_command_buffer();
            return Some(CommandAction::Search(term));
        }
        if starts_with_chars(cmd.as_slice(), replace_prefix.as_slice()) {
            let rest = copy_range(cmd.as_slice(), 3, n);
            let i = find_char(rest.as_slice(), '/');
            proof {
                lemma_first_index_of(rest@, '/');
            }
            if i < rest.len() {
                let from = copy_range(rest.as_slice(), 0, i);
                let after = copy_range(rest.as_slice(), i + 1, rest.len());
                let j = find_char(after.as_slice(), '/');
                proof {
                    lemma_first_index_of(after@, '/');
                }
                let to = copy_range(after.as_slice(), 0, j);
                self.clear_command_buffer();
                return Some(
                    CommandAction::Replace {
                        from: string_from_chars(from.as_slice()),
                        to: string_from_chars(to.as_slice()),
                    },
                );
            }
        }
        let r = named_command_action(&cmd);
        self.clear_command_buffer();
        r
    }

    /// Appends `key` to the pending key sequence.
    pub fn add_key_to_sequence(&mut self, key: char)
        ensures
            final(self)@ == after_call(old(self)@, ModeCall::AddKeyToSequence(key)),
            final(self)@.key_sequence == old(self)@.key_sequence.push(key),
            final(self)@.mode == old(self)@.mode,
            final(self)@.command_buffer == old(self)@.command_buffer,
    {
        self.key_sequence.push(key);
    }

    /// Drops the pending key sequence.
    pub fn clear_key_sequence(&mut self)
        ensures
            final(self)@ == after_call(old(self)@, ModeCall::ClearKeySequence),
            final(self)@.key_sequence == Seq::<char>::empty(),
            final(self)@.mode == old(self)@.mode,
            final(self)@.command_buffer == old(self)@.command_buffer,
    {
        self.key_sequence.clear();
    }

    /// The pending key sequence.
    pub fn get_key_sequence(&self) -> (s: &[char])
        ensures
            s@ == self@.key_sequence,
    {
        self.key_sequence.as_slice()
    }

    /// Whether the pending keys are exactly `a`.
    fn keys_are1(&self, a: char) -> (b: bool)
        ensures
            b == (self@.key_sequence == seq![a]),
    {
        let r = self.key_sequence.len() == 1 && self.key_sequence[0] == a;
        assert(r ==> self.key_sequence@ =~= seq![a]);
        r
    }

    /// Whether the pending keys are exactly `a` then `b`.
    fn keys_are2(&self, a: char, b: char) -> (r: bool)
        ensures
            r == (self@.key_sequence == seq![a, b]),
    {
        let r = self.key_sequence.len() == 2 && self.key_sequence[0] == a && self.key_sequence[1]
            == b;
        assert(r ==> self.key_sequence@ =~= seq![a, b]);
        r
    }

    /// Looks the pending keys up (see `normal_action_for`); a completed
    /// action, or a sequence longer than three keys, clears them.
    pub fn process_normal_mode_keys(&mut self) -> (r: Option<NormalModeAction>)
        ensures
            final(self)@ == after_call(old(self)@, ModeCall::ProcessNormalModeKeys),
            r == normal_action_for(old(self)@.key_sequence),
            final(self)@.key_sequence == sequence_after_lookup(old(self)@.key_sequence),
            final(self)@.mode == old(self)@.mode,
            final(self)@.command_buffer == old(self)@.command_buffer,
    {
        let action = if self.keys_are2('d', 'd') {
            Some(NormalModeAction::DeleteLine)
        } else if self.keys_are2('y', 'y') {
            Some(NormalModeAction::YankLine)
        } else if self.keys_are1('p') {
            Some(NormalModeAction::PutAfter)
        } else if self.keys_are1('P') {
            Some(NormalModeAction::PutBefore)
        } else if self.keys_are2('g', 'g') {
            Some(NormalModeAction::GoToTop)
        } else if self.keys_are1('G') {
            Some(NormalModeAction::GoToBottom)
        } else if self.keys_are1('x') {
            Some(NormalModeAction::DeleteChar)
        } else if self.keys_are1('u') {
            Some(NormalModeAction::Undo)
        } else if self.keys_are1('r') {
            None
        } else if self.key_sequence.len() == 2 && self.key_sequence[0] == 'r' {
            Some(NormalModeAction::Redo)
        } else {
            None
        };
        if action.is_some() || self.key_sequence.len() > 3 {
            self.clear_key_sequence();
        }
        action
    }

    /// Whether the pending keys start a longer command (`d`, `g` or `r`).
    pub fn is_sequence_pending(&self) -> (b: bool)
        ensures
            b == is_pending_sequence(self@.key_sequence),
    {
        if self.key_sequence.len() == 0 {
            return false;
        }
        self.keys_are1('d') || self.keys_are1('g') || self.keys_are1('r')
    }
}

/// A key sequence that still waits for more keys completes no action.
pub proof fn pending_sequences_complete_nothing(seq: Seq<char>)
    requires
        is_pending_sequence(seq),
    ensures
        normal_action_for(seq) is None,
        sequence_after_lookup(seq) == seq,
{
    assert(seq.len() == 1);
    assert(seq!['d', 'd'].len() == 2);
    assert(seq!['y', 'y'].len() == 2);
    assert(seq!['g', 'g'].len() == 2);
    assert(seq[0] == 'd' || seq[0] == 'g' || seq[0] == 'r');
    assert(seq!['p'][0] == 'p' && seq!['P'][0] == 'P' && seq!['G'][0] == 'G');
    assert(seq!['x'][0] == 'x' && seq!['u'][0] == 'u');
}

/// Whitespace around a command line changes nothing: with whitespace `w1`
/// before it and `w2` after it, command line `a` is answered as `a` alone.
pub proof fn surrounding_whitespace_is_ignored(w1: Seq<char>, a: Seq<char>, w2: Seq<char>)
    requires
        all_white_space(w1),
        all_white_space(w2),
    ensures
        command_for(trim(w1 + a + w2)) == command_for(trim(a)),
{
    lemma_trim_around(w1, a, w2);
}

/// No call but `set_mode` changes the mode: after any calls the mode is
/// the one the last `set_mode` set, or the mode before them when none did
/// (a new manager starts in normal mode).
pub proof fn mode_follows_set_mode(start: ModeManagerState, calls: Seq<ModeCall>)
    ensures
        after_calls(start, calls).mode == last_set_mode(start.mode, calls),
    decreases calls.len(),
{
    if calls.len() > 0 {
        mode_follows_set_mode(start, calls.drop_last());
    }
}

/// A command line that starts with `/` searches for all the rest of it:
/// the slash followed by the search term gives back the (trimmed) line.
pub proof fn slash_searches_for_the_rest(line: Seq<char>)
    requires
        trim(line).len() > 0,
        trim(line)[0] == '/',
    ensures
        command_for(trim(line)) matches Some(CommandSpec::Search(t)) && seq!['/'] + t == trim(
            line,
        ),
{
    let cmd = trim(line);
    assert(cmd.subrange(0, 1) =~= seq!['/']);
    assert(!starts_with(cmd, seq!['e', ' '])) by {
        if starts_with(cmd, seq!['e', ' ']) {
            assert(cmd.subrange(0, 2)[0] == 'e');
        }
    }
    assert(!starts_with(cmd, seq!['w', ' '])) by {
        if starts_with(cmd, seq!['w', ' ']) {
            assert(cmd.subrange(0, 2)[0] == 'w');
        }
    }
    assert(unsigned_digits(cmd) == cmd);
    assert(!is_ascii_digit(cmd[0]));
    assert(!all_digits(cmd));
    assert(seq!['/'] + cmd.subrange(1, cmd.len() as int) =~= cmd);
}

/// A one-key sequence is pending exactly when it completes no action yet a
/// second key can complete one (`d` of `dd`, `g` of `gg`, `r` of `r` and a
/// key). The one exception is `y`: `yy` yanks a line, but a lone `y` is not
/// reported as pending.
pub proof fn pending_sequences_await_a_second_key(one: Seq<char>)
    requires
        one.len() == 1,
        one[0] != 'y',
    ensures
        is_pending_sequence(one) <==> (normal_action_for(one) is None && exists|c: char|
            #[trigger] normal_action_for(one.push(c)) is Some),
{
    let k = one[0];
    assert(one =~= seq![k]);
    if k == 'd' {
        assert(one.push(k) =~= seq!['d', 'd']);
        assert(normal_action_for(one.push(k)) is Some);
    } else if k == 'g' {
        assert(one.push(k) =~= seq!['g', 'g']);
        assert(normal_action_for(one.push(k)) is Some);
    } else if k == 'r' {
        assert(is_redo_sequence(one.push('x')));
        assert(normal_action_for(one.push('x')) is Some);
    } else {
        assert(one != seq!['d']) by {
            assert(seq!['d'][0] == 'd');
        }
        assert(one != seq!['g']) by {
            assert(seq!['g'][0] == 'g');
        }
        assert(one != seq!['r']) by {
            assert(seq!['r'][0] == 'r');
        }
        assert forall|c: char| !(#[trigger] normal_action_for(one.push(c)) is Some) by {
            let two = one.push(c);
            assert(two[0] == k);
            assert(two != seq!['d', 'd']) by {
                assert(seq!['d', 'd'][0] == 'd');
            }
            assert(two != seq!['y', 'y']) by {
                assert(seq!['y', 'y'][0] == 'y');
            }
            assert(two != seq!['g', 'g']) by {
                assert(seq!['g', 'g'][0] == 'g');
            }
            assert(two.len() == 2);
            assert(seq!['p'].len() == 1 && seq!['P'].len() == 1 && seq!['G'].len() == 1);
            assert(seq!['x'].len() == 1 && seq!['u'].len() == 1);
        }
    }
    assert(seq!['p'].len() == 1 && seq!['p'][0] == 'p');
    assert(seq!['P'][0] == 'P' && seq!['G'][0] == 'G');
    assert(seq!['x'][0] == 'x' && seq!['u'][0] == 'u');
    assert(seq!['d', 'd'].len() == 2 && seq!['y', 'y'].len() == 2 && seq!['g', 'g'].len() == 2);
}

} // verus!

//! A logger facade that buffers messages until backends exist.
//!
//! Logging must work from the very first instruction of the loader, long
//! before any output device is set up.  The facade therefore starts in a
//! buffering state, keeps every formatted record in order, and hands the
//! whole history to the registered backends exactly once; after that
//! hand-over each record goes to the backends directly.  A backend here is
//! a named in-memory sink: the embedding program drains the sink to a real
//! device (serial port, debug console), which keeps every delivery
//! decision inside verified code.

use vstd::prelude::*;

verus! {

use vstd::string::StringExecFns;

/// Severity of a log record, from most to least severe.
#[derive(Copy, Clone, Debug, PartialEq, Eq, Structural)]
pub enum Level {
    Error,
    Warn,
    Info,
    Debug,
    Trace,
}

impl Level {
    /// The level's name, right-aligned to five characters.
    pub open spec fn spec_padded_name(self) -> Seq<char> {
        match self {
            Level::Error => seq!['E', 'R', 'R', 'O', 'R'],
            Level::Warn => seq![' ', 'W', 'A', 'R', 'N'],
            Level::Info => seq![' ', 'I', 'N', 'F', 'O'],
            Level::Debug => seq!['D', 'E', 'B', 'U', 'G'],
            Level::Trace => seq!['T', 'R', 'A', 'C', 'E'],
        }
    }

    /// Returns the level's name, right-aligned to five characters.
    pub fn padded_name(self) -> (r: &'static str)
        ensures
            r@ == self.spec_padded_name(),
    {
        match self {
            Level::Error => {
                let r = "ERROR";
                proof {
                    reveal_strlit("ERROR");
                    assert(r@ =~= self.spec_padded_name());
                }
                r
            },
            Level::Warn => {
                let r = " WARN";
                proof {
                    reveal_strlit(" WARN");
                    assert(r@ =~= self.spec_padded_name());
                }
                r
            },
            Level::Info => {
                let r = " INFO";
                proof {
                    reveal_strlit(" INFO");
                    assert(r@ =~= self.spec_padded_name());
                }
                r
            },
            Level::Debug => {
                let r = "DEBUG";
                proof {
                    reveal_strlit("DEBUG");
                    assert(r@ =~= self.spec_padded_name());
                }
                r
            },
            Level::Trace => {
                let r = "TRACE";
                proof {
                    reveal_strlit("TRACE");
                    assert(r@ =~= self.spec_padded_name());
                }
                r
            },
        }
    }
}

/// One log record: severity, origin location and the readily formatted
/// message text.
pub struct Record {
    /// Severity of the record.
    pub level: Level,
    /// Source file of the call site, when known.
    pub file: Option<String>,
    /// Source line of the call site, when known.
    pub line: Option<u32>,
    /// The message text.
    pub message: String,
}

/// Mathematical image of a [`Record`].
#[verifier::ext_equal]
pub struct RecordView {
    /// Severity of the record.
    pub level: Level,
    /// Source file of the call site, when known.
    pub file: Option<Seq<char>>,
    /// Source line of the call site, when known.
    pub line: Option<u32>,
    /// The message text.
    pub message: Seq<char>,
}

impl View for Record {
    type V = RecordView;

    open spec fn view(&self) -> RecordView {
        RecordView {
            level: self.level,
            file: match self.file {
                Some(f) => Some(f@),
                None => None,
            },
            line: self.line,
            message: self.message@,
        }
    }
}

impl Record {
    /// Builds a record from its parts.
    pub fn new(level: Level, file: Option<String>, line: Option<u32>, message: String) -> (r: Self)
        ensures
            r@.level == level,
            r@.file == (match file {
                Some(f) => Some(f@),
                None => None::<Seq<char>>,
            }),
            r@.line == line,
            r@.message == message@,
    {
        Record { level, file, line, message }
    }
}

/// The decimal digit character for `d`.
pub open spec fn spec_dec_digit(d: nat) -> char {
    if d == 0 {
        '0'
    } else if d == 1 {
        '1'
    } else if d == 2 {
        '2'
    } else if d == 3 {
        '3'
    } else if d == 4 {
        '4'
    } else if d == 5 {
        '5'
    } else if d == 6 {
        '6'
    } else if d == 7 {
        '7'
    } else if d == 8 {
        '8'
    } else {
        '9'
    }
}

/// The decimal rendering of `n`, without sign or padding.
pub open spec fn spec_dec(n: nat) -> Seq<char>
    decreases n,
{
    if n < 10 {
        seq![spec_dec_digit(n)]
    } else {
        spec_dec(n / 10) + seq![spec_dec_digit(n % 10)]
    }
}

/// Appends the decimal rendering of `n` to `s`.
fn push_dec(s: &mut String, n: u32)
    ensures
        final(s)@ == old(s)@ + spec_dec(n as nat),
    decreases n,
{
    if n >= 10 {
        push_dec(s, n / 10);
    }
    let d = n % 10;
    match d {
        0 => {
            s.append("0");
            proof {
                reveal_strlit("0");
                assert("0"@ =~= seq![spec_dec_digit(d as nat)]);
            }
        },
        1 => {
            s.append("1");
            proof {
                reveal_strlit("1");
                assert("1"@ =~= seq![spec_dec_digit(d as nat)]);
            }
        },
        2 => {
            s.append("2");
            proof {
                reveal_strlit("2");
                assert("2"@ =~= seq![spec_dec_digit(d as nat)]);
            }
        },
        3 => {
            s.append("3");
            proof {
                reveal_strlit("3");
                assert("3"@ =~= seq![spec_dec_digit(d as nat)]);
            }
        },
        4 => {
            s.append("4");
            proof {
                reveal_strlit("4");
                assert("4"@ =~= seq![spec_dec_digit(d as nat)]);
            }
        },
        5 => {
            s.append("5");
            proof {
                reveal_strlit("5");
                assert("5"@ =~= seq![spec_dec_digit(d as nat)]);
            }
        },
        6 => {
            s.append("6");
            proof {
                reveal_strlit("6");
                assert("6"@ =~= seq![spec_dec_digit(d as nat)]);
            }
        },
        7 => {
            s.append("7");
            proof {
                reveal_strlit("7");
                assert("7"@ =~= seq![spec_dec_digit(d as nat)]);
            }
        },
        8 => {
            s.append("8");
            proof {
                reveal_strlit("8");
                assert("8"@ =~= seq![spec_dec_digit(d as nat)]);
            }
        },
        _ => {
            s.append("9");
            proof {
                reveal_strlit("9");
                assert(d == 9);
                assert("9"@ =~= seq![spec_dec_digit(d as nat)]);
            }
        },
    }
    proof {
        assert(s@ =~= old(s)@ + spec_dec(n as nat));
    }
}

/// Placeholder used when the origin file of a record is unknown.
pub open spec fn spec_unknown_file() -> Seq<char> {
    seq!['<', 'u', 'n', 'k', 'n', 'o', 'w', 'n', '>']
}

/// The formatted line of a record: `[LEVEL FILE@LINE]: MESSAGE` plus a
/// trailing newline, with the level right-aligned, the file falling back
/// to a placeholder and the line falling back to `0`.
pub open spec fn spec_format(r: RecordView) -> Seq<char> {
    seq!['['] + r.level.spec_padded_name() + seq![' '] + (match r.file {
        Some(f) => f,
        None => spec_unknown_file(),
    }) + seq!['@'] + spec_dec((match r.line {
        Some(l) => l,
        None => 0,
    }) as nat) + seq![']', ':', ' '] + r.message + seq!['\n']
}

/// Formats a log message properly and appends it to the given writer.
pub fn format_and_write_log_msg(writer: &mut String, record: &Record)
    ensures
        final(writer)@ == old(writer)@ + spec_format(record@),
{
    writer.append("[");
    writer.append(record.level.padded_name());
    writer.append(" ");
    match &record.file {
        Some(f) => writer.append(f.as_str()),
        None => {
            writer.append("<unknown>");
            proof {
                reveal_strlit("<unknown>");
                assert("<unknown>"@ =~= spec_unknown_file());
            }
        },
    }
    writer.append("@");
    let line = match record.line {
        Some(l) => l,
        None => 0,
    };
    push_dec(writer, line);
    writer.append("]: ");
    writer.append(record.message.as_str());
    writer.append("\n");
    proof {
        reveal_strlit("[");
        reveal_strlit(" ");
        reveal_strlit("@");
        reveal_strlit("]: ");
        reveal_strlit("\n");
        assert("["@ =~= seq!['[']);
        assert(" "@ =~= seq![' ']);
        assert("@"@ =~= seq!['@']);
        assert("]: "@ =~= seq![']', ':', ' ']);
        assert("\n"@ =~= seq!['\n']);
        assert(writer@ =~= old(writer)@ + spec_format(record@));
    }
}

/// A named sink for formatted log lines.
///
/// The sink records, in order, every line delivered to it.  The embedding
/// program pairs each sink with a real output device and forwards the
/// recorded lines; keeping the sink in the library keeps the delivery
/// order and the duplicate-name rules verifiable.
#[derive(Debug)]
pub struct Backend {
    name: String,
    received: Vec<String>,
}

/// Mathematical image of a [`Backend`].
#[verifier::ext_equal]
pub struct BackendView {
    /// The backend's unique name.
    pub name: Seq<char>,
    /// Every line delivered to the backend, oldest first.
    pub received: Seq<Seq<char>>,
}

impl View for Backend {
    type V = BackendView;

    closed spec fn view(&self) -> BackendView {
        BackendView { name: self.name@, received: self.received@.map_values(|s: String| s@) }
    }
}

impl Backend {
    /// A fresh sink under the given unique name.
    pub fn new(name: &str) -> (r: Self)
        ensures
            r@.name == name@,
            r@.received == Seq::<Seq<char>>::empty(),
    {
        let r = Backend { name: name.to_owned(), received: Vec::new() };
        proof {
            assert(r@.received =~= Seq::<Seq<char>>::empty());
        }
        r
    }

    /// Returns the unique name of the backend.
    pub fn name(&self) -> (r: &str)
        ensures
            r@ == self@.name,
    {
        self.name.as_str()
    }

    /// Returns every line delivered so far, oldest first.
    pub fn received(&self) -> (r: &Vec<String>)
        ensures
            r@.map_values(|s: String| s@) == self@.received,
    {
        &self.received
    }

    /// Hands one line to the sink.
    fn write_str(&mut self, msg: &str)
        ensures
            final(self)@.name == old(self)@.name,
            final(self)@.received == old(self)@.received.push(msg@),
    {
        self.received.push(msg.to_owned());
        proof {
            assert(self@.received =~~= old(self)@.received.push(msg@));
        }
    }
}

/// The provided backend is already specified; it is handed back to the
/// caller unchanged.
#[derive(Debug)]
pub struct BackendAlreadySpecifiedError(pub Backend);

/// Logger implementation that holds the message buffer and all backends.
///
/// While `message_buffer` is present the facade is buffering; the one-time
/// hand-over to the backends clears it for good.
#[derive(Debug)]
pub struct LoggerFacade {
    message_buffer: Option<Vec<String>>,
    backends: Vec<Backend>,
}

/// Mathematical image of a [`LoggerFacade`].
#[verifier::ext_equal]
pub struct LoggerView {
    /// The buffered lines while buffering, absent after the hand-over.
    pub message_buffer: Option<Seq<Seq<char>>>,
    /// The registered backends, in registration order.
    pub backends: Seq<BackendView>,
}

impl View for LoggerFacade {
    type V = LoggerView;

    closed spec fn view(&self) -> LoggerView {
        LoggerView {
            message_buffer: match self.message_buffer {
                Some(v) => Some(v@.map_values(|s: String| s@)),
                None => None,
            },
            backends: self.backends@.map_values(|b: Backend| b@),
        }
    }
}

/// True when a backend under `name` is registered.
pub open spec fn spec_has_backend(l: LoggerView, name: Seq<char>) -> bool {
    exists|i: int| 0 <= i < l.backends.len() && l.backends[i].name == name
}

/// Every backend with `line` appended to its history.
pub open spec fn spec_deliver(backends: Seq<BackendView>, line: Seq<char>) -> Seq<BackendView> {
    backends.map_values(
        |b: BackendView| BackendView { name: b.name, received: b.received.push(line) },
    )
}

/// Every backend with all of `lines` appended to its history, in order.
pub open spec fn spec_deliver_all(backends: Seq<BackendView>, lines: Seq<Seq<char>>) -> Seq<
    BackendView,
> {
    backends.map_values(|b: BackendView| BackendView { name: b.name, received: b.received + lines })
}

/// State after logging one record: the formatted line is buffered while
/// buffering, and goes to every backend after the hand-over.
pub open spec fn spec_logged(l: LoggerView, r: RecordView) -> LoggerView {
    match l.message_buffer {
        Some(buf) => LoggerView {
            message_buffer: Some(buf.push(spec_format(r))),
            backends: l.backends,
        },
        None => LoggerView {
            message_buffer: None,
            backends: spec_deliver(l.backends, spec_format(r)),
        },
    }
}

/// State after the hand-over: the whole buffered history goes to every
/// backend, in original order; once flushed, nothing changes.
pub open spec fn spec_flushed(l: LoggerView) -> LoggerView {
    match l.message_buffer {
        Some(buf) => LoggerView {
            message_buffer: None,
            backends: spec_deliver_all(l.backends, buf),
        },
        None => l,
    }
}

impl LoggerFacade {
    /// A fresh facade: buffering, with no backend registered.
    pub fn new() -> (r: Self)
        ensures
            r@.message_buffer == Some(Seq::<Seq<char>>::empty()),
            r@.backends == Seq::<BackendView>::empty(),
    {
        let r = LoggerFacade { message_buffer: Some(Vec::new()), backends: Vec::new() };
        proof {
            assert(r@.message_buffer->0 =~= Seq::<Seq<char>>::empty());
            assert(r@.backends =~= Seq::<BackendView>::empty());
        }
        r
    }

    /// Registers a backend under its name.  A second backend under an
    /// already-registered name is rejected and handed back unchanged.
    pub fn add_backend(&mut self, backend: Backend) -> (r: Result<
        (),
        BackendAlreadySpecifiedError,
    >)
        ensures
            spec_has_backend(old(self)@, backend@.name) ==> {
                &&& r matches Err(e) && e.0@ == backend@
                &&& final(self)@ == old(self)@
            },
            !spec_has_backend(old(self)@, backend@.name) ==> {
                &&& r is Ok
                &&& final(self)@.message_buffer == old(self)@.message_buffer
                &&& final(self)@.backends == old(self)@.backends.push(backend@)
            },
    {
        let mut has_backend = false;
        let n = self.backends.len();
        let mut i: usize = 0;
        while i < n
            invariant
                n == self.backends.len(),
                0 <= i <= n,
                has_backend <==> exists|j: int|
                    0 <= j < i && self.backends@[j]@.name == backend@.name,
            decreases n - i,
        {
            if self.backends[i].name == backend.name {
                has_backend = true;
            }
            i += 1;
        }
        proof {
            if has_backend {
                let j = choose|j: int| 0 <= j < i && self.backends@[j]@.name == backend@.name;
                assert(self@.backends[j].name == backend@.name);
            }
            if spec_has_backend(self@, backend@.name) {
                let j = choose|j: int|
                    0 <= j < self@.backends.len() && self@.backends[j].name == backend@.name;
                assert(self.backends@[j]@.name == backend@.name);
            }
        }
        if !has_backend {
            self.backends.push(backend);
            proof {
                assert(self@.backends =~~= old(self)@.backends.push(backend@));
                assert(self@.message_buffer =~~= old(self)@.message_buffer);
            }
            Ok(())
        } else {
            proof {
                assert(self@ =~~= old(self)@);
            }
            Err(BackendAlreadySpecifiedError(backend))
        }
    }

    /// Depending on the state of the logger, formats a logging message and
    /// puts it into the buffer, or writes it directly to the backends.
    pub fn log_or_buffer_record(&mut self, record: &Record)
        ensures
            final(self)@ == spec_logged(old(self)@, record@),
    {
        match self.message_buffer.take() {
            Some(mut buffer) => {
                let mut writer = String::new();
                format_and_write_log_msg(&mut writer, record);
                buffer.push(writer);
                self.message_buffer = Some(buffer);
                proof {
                    assert(self@ =~~= spec_logged(old(self)@, record@));
                }
            },
            None => {
                let mut writer = String::new();
                format_and_write_log_msg(&mut writer, record);
                self.write_to_all_backends(writer.as_str());
                proof {
                    assert(self@ =~~= spec_logged(old(self)@, record@));
                }
            },
        }
    }

    /// One-time hand-over from buffering to the backends: every buffered
    /// message is delivered, in original order, to every backend
    /// registered at this moment.  Further invocations are no-ops.
    pub fn do_handover_to_backends(&mut self)
        ensures
            final(self)@ == spec_flushed(old(self)@),
    {
        match self.message_buffer.take() {
            Some(messages) => {
                let ghost bs = old(self)@.backends;
                let ghost ls = messages@.map_values(|s: String| s@);
                let n = messages.len();
                let mut i: usize = 0;
                while i < n
                    invariant
                        n == messages.len(),
                        0 <= i <= n,
                        ls == messages@.map_values(|s: String| s@),
                        self.message_buffer is None,
                        self@.backends == spec_deliver_all(bs, ls.take(i as int)),
                    decreases n - i,
                {
                    let ghost before = self@.backends;
                    self.write_to_all_backends(messages[i].as_str());
                    proof {
                        assert forall|k: int| 0 <= k < bs.len() implies spec_deliver(
                            before,
                            ls[i as int],
                        )[k] == spec_deliver_all(bs, ls.take(i + 1))[k] by {
                            assert(bs[k].received + ls.take(i + 1) =~= (bs[k].received + ls.take(
                                i as int,
                            )).push(ls[i as int]));
                        }
                        assert(self@.backends =~~= spec_deliver_all(bs, ls.take(i + 1)));
                    }
                    i += 1;
                }
                proof {
                    assert(ls.take(n as int) =~= ls);
                    assert(self@ =~~= spec_flushed(old(self)@));
                }
            },
            None => {
                proof {
                    assert(self@ =~~= spec_flushed(old(self)@));
                }
            },
        }
    }

    /// Flushes all messages that have been buffered so far.  Once this has
    /// been called, all further messages go directly to the backends.
    pub fn flush(&mut self)
        ensures
            final(self)@ == spec_flushed(old(self)@),
    {
        self.do_handover_to_backends();
    }

    /// The number of buffered messages, or nothing after the hand-over.
    pub fn buffered_msg_count(&self) -> (r: Option<usize>)
        ensures
            match self@.message_buffer {
                Some(b) => r matches Some(n) && n == b.len(),
                None => r is None,
            },
    {
        match &self.message_buffer {
            Some(v) => Some(v.len()),
            None => None,
        }
    }

    /// Returns a copy of the buffered messages.
    pub fn buffered_msgs(&self) -> (r: Vec<String>)
        requires
            self@.message_buffer is Some,
        ensures
            r@.map_values(|s: String| s@) == self@.message_buffer->0,
    {
        let buf = self.message_buffer.as_ref().unwrap();
        let r = buf.clone();
        proof {
            assert forall|k: int| 0 <= k < r@.len() implies r@[k]@ == buf@[k]@ by {
                assert(cloned::<String>(buf@[k], r@[k]));
            }
            assert(r@.map_values(|s: String| s@) =~~= self@.message_buffer->0);
        }
        r
    }

    /// The registered backends, in registration order.
    pub fn backends(&self) -> (r: &Vec<Backend>)
        ensures
            r@.map_values(|b: Backend| b@) == self@.backends,
    {
        &self.backends
    }

    /// Writes the message synchronously to all backends.
    pub fn write_to_all_backends(&mut self, msg: &str)
        ensures
            final(self)@.message_buffer == old(self)@.message_buffer,
            final(self)@.backends == spec_deliver(old(self)@.backends, msg@),
    {
        let n = self.backends.len();
        let mut i: usize = 0;
        while i < n
            invariant
                n == self.backends.len(),
                0 <= i <= n,
                self.message_buffer == old(self).message_buffer,
                self.backends@.len() == old(self).backends@.len(),
                forall|j: int|
                    i <= j < n ==> self.backends@[j] == #[trigger] old(self).backends@[j],
                forall|j: int|
                    0 <= j < i ==> #[trigger] self.backends@[j]@ == (BackendView {
                        name: old(self).backends@[j]@.name,
                        received: old(self).backends@[j]@.received.push(msg@),
                    }),
            decreases n - i,
        {
            let backend = &mut self.backends[i];
            backend.write_str(msg);
            i += 1;
        }
        proof {
            assert(self@.backends =~~= spec_deliver(old(self)@.backends, msg@));
            assert(self@.message_buffer =~~= old(self)@.message_buffer);
        }
    }
}

/// Law: the hand-over to the backends happens at most once.  A repeated
/// flush finds the buffer gone and changes nothing.
pub proof fn lemma_flush_is_idempotent(l: LoggerView)
    ensures
        spec_flushed(spec_flushed(l)) == spec_flushed(l),
{
}

/// Law: records logged while buffering are handed to a later-registered
/// backend on the first flush, exactly and in original order, and a
/// record logged after that flush reaches the backend immediately.
///
/// Starting from a fresh facade, logging three records, registering one
/// fresh backend and flushing leaves precisely the three formatted lines
/// in the backend's history; logging a fourth record appends its line.
pub proof fn lemma_buffered_then_flushed_round_trip(
    l0: LoggerView,
    r1: RecordView,
    r2: RecordView,
    r3: RecordView,
    b: BackendView,
    r4: RecordView,
)
    requires
        l0.message_buffer == Some(Seq::<Seq<char>>::empty()),
        l0.backends == Seq::<BackendView>::empty(),
        b.received == Seq::<Seq<char>>::empty(),
    ensures
        ({
            let l3 = spec_logged(spec_logged(spec_logged(l0, r1), r2), r3);
            let l4 = LoggerView { message_buffer: l3.message_buffer, backends: l3.backends.push(b) };
            let l5 = spec_flushed(l4);
            &&& !spec_has_backend(l3, b.name)
            &&& l5.backends.len() == 1
            &&& l5.backends[0].name == b.name
            &&& l5.backends[0].received == seq![spec_format(r1), spec_format(r2), spec_format(r3)]
            &&& spec_logged(l5, r4).backends[0].received == seq![
                spec_format(r1),
                spec_format(r2),
                spec_format(r3),
                spec_format(r4),
            ]
        }),
{
    let l3 = spec_logged(spec_logged(spec_logged(l0, r1), r2), r3);
    let l4 = LoggerView { message_buffer: l3.message_buffer, backends: l3.backends.push(b) };
    let l5 = spec_flushed(l4);
    assert(l3.backends.len() == 0);
    assert(l3.message_buffer == Some(
        Seq::<Seq<char>>::empty().push(spec_format(r1)).push(spec_format(r2)).push(spec_format(r3)),
    ));
    assert(l5.backends[0].received =~= seq![spec_format(r1), spec_format(r2), spec_format(r3)]);
    assert(spec_logged(l5, r4).backends[0].received =~= seq![
        spec_format(r1),
        spec_format(r2),
        spec_format(r3),
        spec_format(r4),
    ]);
}

} // verus!

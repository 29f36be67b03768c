use tracing::dispatcher::SetGlobalDefaultError;
use tracing::span::Id;
use tracing::Dispatch;
use vstd::prelude::*;
use vstd::string::StringExecFns;

verus! {

/// The name of the field that carries an event's formatted message.
pub open spec fn message_field() -> Seq<char> {
    "message"@
}

/// The line printed for a string-valued field: the message field alone,
/// any other field as `name: value`.
pub open spec fn str_field_line(name: Seq<char>, value: Seq<char>) -> Seq<char> {
    if name == message_field() {
        value
    } else {
        name + ": "@ + value
    }
}

/// The line printed for a field recorded through its `Debug` rendering
/// `rendered`: `d: ` before the message field, `d:name: ` before any other.
pub open spec fn debug_field_line(name: Seq<char>, rendered: Seq<char>) -> Seq<char> {
    if name == message_field() {
        "d: "@ + rendered
    } else {
        "d:"@ + name + ": "@ + rendered
    }
}

/// For every field, the `Debug` line is the string line behind a prefix:
/// `d: ` for the message field and `d:` for any other.
pub proof fn debug_line_is_prefixed_str_line(name: Seq<char>, value: Seq<char>)
    ensures
        debug_field_line(name, value) == (if name == message_field() {
            "d: "@
        } else {
            "d:"@
        }) + str_field_line(name, value),
{
    if name != message_field() {
        assert("d:"@ + name + ": "@ + value =~= "d:"@ + (name + ": "@ + value));
    }
}

/// The message field's string line is the whole value, of any length.
pub proof fn message_str_line_is_whole_value(value: Seq<char>)
    ensures
        str_field_line("message"@, value) == value,
{
}

/// The message field's `Debug` line is `d: ` followed by the whole rendering,
/// of any length.
pub proof fn message_debug_line_keeps_whole_rendering(rendered: Seq<char>)
    ensures
        debug_field_line("message"@, rendered).len() == 3 + rendered.len(),
        debug_field_line("message"@, rendered).take(3) == "d: "@,
        debug_field_line("message"@, rendered).skip(3) == rendered,
{
    reveal_strlit("d: ");
    let line = debug_field_line("message"@, rendered);
    assert(line.take(3) =~= "d: "@);
    assert(line.skip(3) =~= rendered);
}

/// Any field but the message: its string line is the name, `: `, and then the
/// whole value, of any length.
pub proof fn other_str_line_is_name_then_value(name: Seq<char>, value: Seq<char>)
    requires
        name != "message"@,
    ensures
        str_field_line(name, value).len() == name.len() + 2 + value.len(),
        str_field_line(name, value).take((name.len() + 2) as int) == name + ": "@,
        str_field_line(name, value).skip((name.len() + 2) as int) == value,
{
    reveal_strlit(": ");
    let line = str_field_line(name, value);
    assert(line.take((name.len() + 2) as int) =~= name + ": "@);
    assert(line.skip((name.len() + 2) as int) =~= value);
}

/// Any field but the message: its `Debug` line is `d:`, the name, `: `, and
/// then the whole rendering, of any length.
pub proof fn other_debug_line_is_name_then_rendering(name: Seq<char>, rendered: Seq<char>)
    requires
        name != "message"@,
    ensures
        debug_field_line(name, rendered).len() == name.len() + 4 + rendered.len(),
        debug_field_line(name, rendered).take((name.len() + 4) as int) == "d:"@ + name + ": "@,
        debug_field_line(name, rendered).skip((name.len() + 4) as int) == rendered,
{
    reveal_strlit("d:");
    reveal_strlit(": ");
    let line = debug_field_line(name, rendered);
    assert(line.take((name.len() + 4) as int) =~= "d:"@ + name + ": "@);
    assert(line.skip((name.len() + 4) as int) =~= rendered);
}

/// Visits the fields of an event and renders each as one output line.
#[derive(Clone, Copy, Debug)]
pub struct EmbeddedVisitor;

impl EmbeddedVisitor {
    /// Creates a visitor.
    pub fn new() -> (v: Self)
        ensures
            v == EmbeddedVisitor,
    {
        EmbeddedVisitor
    }

    /// The line to print when a string field `name` is recorded with `value`.
    pub fn record_str(&self, name: &str, value: &str) -> (line: String)
        ensures
            line@ == str_field_line(name@, value@),
            name@ == "message"@ ==> line@ == value@,
            name@ != "message"@ ==> line@.len() == name@.len() + 2 + value@.len()
                && line@.take((name@.len() + 2) as int) == name@ + ": "@
                && line@.skip((name@.len() + 2) as int) == value@,
    {
        proof {
            message_str_line_is_whole_value(value@);
            if name@ != "message"@ {
                other_str_line_is_name_then_value(name@, value@);
            }
        }
        let is_message = is_message_field(name);
        if is_message {
            value.to_owned()
        } else {
            let mut line = name.to_owned();
            line.append(": ");
            line.append(value);
            line
        }
    }

    /// The line to print when field `name` is recorded through its `Debug`
    /// rendering `rendered`.
    pub fn record_debug(&self, name: &str, rendered: &str) -> (line: String)
        ensures
            line@ == debug_field_line(name@, rendered@),
            name@ == "message"@ ==> line@.len() == 3 + rendered@.len()
                && line@.take(3) == "d: "@
                && line@.skip(3) == rendered@,
            name@ != "message"@ ==> line@.len() == name@.len() + 4 + rendered@.len()
                && line@.take((name@.len() + 4) as int) == "d:"@ + name@ + ": "@
                && line@.skip((name@.len() + 4) as int) == rendered@,
    {
        proof {
            message_debug_line_keeps_whole_rendering(rendered@);
            if name@ != "message"@ {
                other_debug_line_is_name_then_rendering(name@, rendered@);
            }
        }
        let is_message = is_message_field(name);
        if is_message {
            let mut line = String::from_str("d: ");
            line.append(rendered);
            line
        } else {
            let mut line = String::from_str("d:");
            line.append(name);
            line.append(": ");
            line.append(rendered);
            line
        }
    }
}

fn is_message_field(name: &str) -> (b: bool)
    ensures
        b == (name@ == message_field()),
{
    let wanted = String::from_str("message");
    let owned = name.to_owned();
    owned == wanted
}


// - outside types -------------------------------------------------------------

#[verifier::external_type_specification]
#[verifier::external_body]
pub struct ExId(Id);

#[verifier::external_type_specification]
#[verifier::external_body]
pub struct ExDispatch(Dispatch);

#[verifier::external_type_specification]
#[verifier::external_body]
pub struct ExSetGlobalDefaultError(SetGlobalDefaultError);

/// The span ID that `tracing::span::Id::from_u64` builds from a non-zero `u64`.
pub uninterp spec fn span_id_from(value: u64) -> Id;

/// Calls `tracing::span::Id::from_u64`, which panics on zero (the ID wraps a
/// `NonZeroU64`); on any other value its result is a function of the value alone.
#[verifier::external_body]
fn span_id_from_u64(value: u64) -> (id: Id)
    requires
        value != 0,
    ensures
        id == span_id_from(value),
{
    Id::from_u64(value)
}

/// Calls `tracing::dispatcher::set_global_default`. Whether it succeeds depends
/// on the process-wide state of `tracing` (it fails once a global default has
/// been installed), so nothing is stated of the result.
#[verifier::external_body]
fn install_global_default(dispatch: Dispatch) -> (r: Result<(), SetGlobalDefaultError>) {
    tracing::dispatcher::set_global_default(dispatch)
}

// - setup ---------------------------------------------------------------------

/// Why tracing could not be set up.
#[derive(Clone, Copy, Debug, PartialEq, Eq)]
pub enum TracingSetupError {
    /// A global default dispatcher had already been installed.
    GlobalDefaultAlreadySet,
}

impl TracingSetupError {
    /// The text that reports this error.
    pub fn message(&self) -> (text: String)
        ensures
            text@ == "global default dispatcher for tracing is already set"@,
    {
        match self {
            TracingSetupError::GlobalDefaultAlreadySet => String::from_str(
                "global default dispatcher for tracing is already set",
            ),
        }
    }
}

/// What installing a global default dispatcher amounts to, given what
/// `tracing` answered.
pub fn setup_outcome(installed: Result<(), SetGlobalDefaultError>) -> (r: Result<(), TracingSetupError>)
    ensures
        r is Ok <==> installed is Ok,
        r is Err ==> r == Err::<(), TracingSetupError>(TracingSetupError::GlobalDefaultAlreadySet),
{
    match installed {
        Ok(()) => Ok(()),
        Err(_) => Err(TracingSetupError::GlobalDefaultAlreadySet),
    }
}

/// Installs `dispatch`, a dispatcher built around an [`EmbeddedSubscriber`],
/// as the global default for `tracing`. Fails when a global default is
/// already installed.
pub fn setup_tracing(dispatch: Dispatch) -> (r: Result<(), TracingSetupError>)
    ensures
        r is Err ==> r == Err::<(), TracingSetupError>(TracingSetupError::GlobalDefaultAlreadySet),
{
    let installed = install_global_default(dispatch);
    setup_outcome(installed)
}

// - EmbeddedSubscriber ----------------------------------------------------------

/// The numeric ID that every new span receives.
pub const NEW_SPAN_ID: u64 = 0xAAAA;

/// The subscriber callbacks that report themselves with a line of output.
#[derive(Clone, Copy, Debug, PartialEq, Eq)]
pub enum SubscriberHook {
    NewSpan,
    Record,
    RecordFollowsFrom,
    Enter,
    Exit,
}

/// The line a subscriber callback prints when it is called.
pub open spec fn hook_line(hook: SubscriberHook) -> Seq<char> {
    match hook {
        SubscriberHook::NewSpan => "EmbeddedSubscriber::new_span"@,
        SubscriberHook::Record => "EmbeddedSubscriber::record"@,
        SubscriberHook::RecordFollowsFrom => "EmbeddedSubscriber::record_follows_from"@,
        SubscriberHook::Enter => "EmbeddedSubscriber::enter"@,
        SubscriberHook::Exit => "EmbeddedSubscriber::exit"@,
    }
}

/// Each callback names itself: two different callbacks never print the same
/// line.
pub proof fn hook_lines_are_distinct(a: SubscriberHook, b: SubscriberHook)
    requires
        a != b,
    ensures
        hook_line(a) != hook_line(b),
{
    reveal_strlit("EmbeddedSubscriber::new_span");
    reveal_strlit("EmbeddedSubscriber::record");
    reveal_strlit("EmbeddedSubscriber::record_follows_from");
    reveal_strlit("EmbeddedSubscriber::enter");
    reveal_strlit("EmbeddedSubscriber::exit");
    assert(hook_line(SubscriberHook::NewSpan).len() == 28);
    assert(hook_line(SubscriberHook::Record).len() == 26);
    assert(hook_line(SubscriberHook::RecordFollowsFrom).len() == 39);
    assert(hook_line(SubscriberHook::Enter).len() == 25);
    assert(hook_line(SubscriberHook::Exit).len() == 24);
}

/// A `tracing` subscriber for targets without a standard output: every event
/// is enabled, every span gets the same ID, and each callback reports itself.
#[derive(Clone, Copy, Debug)]
pub struct EmbeddedSubscriber;

impl EmbeddedSubscriber {
    /// Creates a subscriber.
    pub fn new() -> (s: Self)
        ensures
            s == EmbeddedSubscriber,
    {
        EmbeddedSubscriber
    }

    /// Whether events and spans are recorded: always.
    pub fn enabled(&self) -> (b: bool)
        ensures
            b,
    {
        true
    }

    /// The line that callback `hook` prints.
    pub fn hook_line(&self, hook: SubscriberHook) -> (line: String)
        ensures
            line@ == hook_line(hook),
    {
        match hook {
            SubscriberHook::NewSpan => String::from_str("EmbeddedSubscriber::new_span"),
            SubscriberHook::Record => String::from_str("EmbeddedSubscriber::record"),
            SubscriberHook::RecordFollowsFrom => String::from_str(
                "EmbeddedSubscriber::record_follows_from",
            ),
            SubscriberHook::Enter => String::from_str("EmbeddedSubscriber::enter"),
            SubscriberHook::Exit => String::from_str("EmbeddedSubscriber::exit"),
        }
    }

    /// A new span: the line it prints, and the ID it gets.
    pub fn new_span(&self) -> (r: (String, Id))
        ensures
            r.0@ == hook_line(SubscriberHook::NewSpan),
            r.1 == span_id_from(NEW_SPAN_ID),
    {
        let line = self.hook_line(SubscriberHook::NewSpan);
        let id = span_id_from_u64(NEW_SPAN_ID);
        (line, id)
    }
}

} // verus!

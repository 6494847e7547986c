//! Severity entry points: one function per message shape and severity. Each
//! builds the message fragment, hands it to the facade at its severity —
//! which routes it through the installed formatting callback — and returns
//! the fragment it emitted. Payload-carrying shapes serialize the payload
//! through the outside JSON capability and splice the text in verbatim.

use vstd::prelude::*;
use crate::level::Level;
use crate::message::{msg_label, msg_label_data, msg_label_tag, msg_label_tag_data};
use crate::message::{spec_msg_label, spec_msg_label_data, spec_subst};

verus! {

/// The opaque structured payload a call site attaches to a message.
#[verifier::external_type_specification]
#[verifier::external_body]
pub struct ExValue(serde_json::Value);

/// The opaque bundle of formatting arguments the facade's records carry.
#[verifier::external_type_specification]
#[verifier::external_body]
pub struct ExArguments<'a>(core::fmt::Arguments<'a>);

/// Relies on serde_json's `Display` for `Value`: renders the value as its
/// compact JSON text.
#[verifier::external_body]
fn json_fragment(value: &serde_json::Value) -> (r: String) {
    value.to_string()
}

/// A writer that emits whatever is written to it as one facade record at a
/// fixed severity.
struct FacadeChannel {
    level: Level,
}

impl FacadeChannel {
    /// Relies on log's global dispatch: hands one record at this channel's
    /// severity, carrying the written text as its message and no source
    /// position, to the installed logger; the facade applies its filter
    /// and, when the record passes, invokes the installed callback.
    #[verifier::external_body]
    fn write_fmt(&mut self, args: core::fmt::Arguments<'_>) {
        let lvl = match self.level {
            Level::Error => log::Level::Error,
            Level::Warn => log::Level::Warn,
            Level::Info => log::Level::Info,
            Level::Debug => log::Level::Debug,
            Level::Trace => log::Level::Trace,
        };
        log::logger().log(&log::Record::builder().level(lvl).args(args).build());
    }
}

/// Hands `body`, unchanged, to the facade channel for the given severity;
/// the channel turns it into one facade record.
#[verifier::external_body]
fn emit_to_facade(level: Level, body: &str) {
    let mut channel = FacadeChannel { level };
    write!(channel, "{}", body)
}

/// Emits the label-only shape at informational severity and returns the
/// emitted fragment.
pub fn info_label(label: &str) -> (body: String)
    ensures
        body@ == spec_msg_label(label@),
{
    let b = msg_label(label);
    emit_to_facade(Level::Info, b.as_str());
    b
}

/// Emits the label-plus-tag shape at informational severity and returns
/// the emitted fragment.
pub fn info_label_tag(label: &str, tag: &str) -> (body: String)
    ensures
        body@ == spec_msg_label(spec_subst(label@, tag@)),
{
    let b = msg_label_tag(label, tag);
    emit_to_facade(Level::Info, b.as_str());
    b
}

/// Emits the label-plus-payload shape at informational severity and
/// returns the emitted fragment.
pub fn info_label_data(label: &str, data: &serde_json::Value) -> (body: String)
    ensures
        exists|d: Seq<char>| body@ == spec_msg_label_data(label@, d),
{
    let frag = json_fragment(data);
    let b = msg_label_data(label, frag.as_str());
    emit_to_facade(Level::Info, b.as_str());
    b
}

/// Emits the full shape (tag substituted, payload appended) at
/// informational severity and returns the emitted fragment.
pub fn info_label_tag_data(label: &str, tag: &str, data: &serde_json::Value) -> (body: String)
    ensures
        exists|d: Seq<char>| body@ == spec_msg_label_data(spec_subst(label@, tag@), d),
{
    let frag = json_fragment(data);
    let b = msg_label_tag_data(label, tag, frag.as_str());
    emit_to_facade(Level::Info, b.as_str());
    b
}

/// Emits the label-only shape at error severity and returns the emitted
/// fragment.
pub fn error_label(label: &str) -> (body: String)
    ensures
        body@ == spec_msg_label(label@),
{
    let b = msg_label(label);
    emit_to_facade(Level::Error, b.as_str());
    b
}

/// Emits the label-plus-tag shape at error severity and returns the
/// emitted fragment.
pub fn error_label_tag(label: &str, tag: &str) -> (body: String)
    ensures
        body@ == spec_msg_label(spec_subst(label@, tag@)),
{
    let b = msg_label_tag(label, tag);
    emit_to_facade(Level::Error, b.as_str());
    b
}

/// Emits the label-plus-payload shape at error severity and returns the
/// emitted fragment.
pub fn error_label_data(label: &str, data: &serde_json::Value) -> (body: String)
    ensures
        exists|d: Seq<char>| body@ == spec_msg_label_data(label@, d),
{
    let frag = json_fragment(data);
    let b = msg_label_data(label, frag.as_str());
    emit_to_facade(Level::Error, b.as_str());
    b
}

/// Emits the full shape (tag substituted, payload appended) at error
/// severity and returns the emitted fragment.
pub fn error_label_tag_data(label: &str, tag: &str, data: &serde_json::Value) -> (body: String)
    ensures
        exists|d: Seq<char>| body@ == spec_msg_label_data(spec_subst(label@, tag@), d),
{
    let frag = json_fragment(data);
    let b = msg_label_tag_data(label, tag, frag.as_str());
    emit_to_facade(Level::Error, b.as_str());
    b
}

} // verus!

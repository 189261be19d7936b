//! What a plugin answers to a message from a client.

use crate::jansson::{count_change, json_t, JanssonValue, WrapperOp};
use vstd::prelude::*;
use vstd::string::*;

verus! {

/// How a plugin answers a message: with an error, with the result, or with
/// the promise of a result that will come as an event.
#[allow(non_camel_case_types)]
#[derive(Debug, Copy, Clone, PartialEq, Eq, Hash, Structural)]
pub enum janus_plugin_result_type {
    JANUS_PLUGIN_ERROR,
    JANUS_PLUGIN_OK,
    JANUS_PLUGIN_OK_WAIT,
}

pub type PluginResultType = janus_plugin_result_type;

/// The number by which Janus knows a kind of answer.
pub open spec fn result_type_code(kind: PluginResultType) -> int {
    match kind {
        janus_plugin_result_type::JANUS_PLUGIN_ERROR => -1,
        janus_plugin_result_type::JANUS_PLUGIN_OK => 0,
        janus_plugin_result_type::JANUS_PLUGIN_OK_WAIT => 1,
    }
}

impl janus_plugin_result_type {
    /// The number by which Janus knows this kind of answer.
    pub fn code(self) -> (code: i32)
        ensures
            code == result_type_code(self),
    {
        match self {
            janus_plugin_result_type::JANUS_PLUGIN_ERROR => -1,
            janus_plugin_result_type::JANUS_PLUGIN_OK => 0,
            janus_plugin_result_type::JANUS_PLUGIN_OK_WAIT => 1,
        }
    }

    /// The kind of answer that Janus knows by `code`, if there is one.
    pub fn from_code(code: i32) -> (kind: Option<PluginResultType>)
        ensures
            kind is Some <==> -1 <= code <= 1,
            kind matches Some(k) ==> result_type_code(k) == code,
    {
        if code == -1 {
            Some(janus_plugin_result_type::JANUS_PLUGIN_ERROR)
        } else if code == 0 {
            Some(janus_plugin_result_type::JANUS_PLUGIN_OK)
        } else if code == 1 {
            Some(janus_plugin_result_type::JANUS_PLUGIN_OK_WAIT)
        } else {
            None
        }
    }
}

/// A Janus plugin result; what a plugin returns to the gateway as a direct
/// response to a signalling message: the kind of answer, a text for the
/// client if there is one, and the address of the JSON value that is the
/// result, which is null where there is none.
#[derive(Debug)]
pub struct PluginResult {
    pub type_: PluginResultType,
    pub text: Option<String>,
    pub content: usize,
}

/// What a plugin result holds.
pub ghost struct PluginResultView {
    pub type_: PluginResultType,
    pub text: Option<Seq<char>>,
    pub content: usize,
}

impl View for PluginResult {
    type V = PluginResultView;

    open spec fn view(&self) -> PluginResultView {
        PluginResultView {
            type_: self.type_,
            text: match self.text {
                Some(text) => Some(text@),
                None => None,
            },
            content: self.content,
        }
    }
}

impl PluginResult {
    /// Creates a new plugin result.
    pub fn new(type_: PluginResultType, text: Option<String>, content: usize) -> (result: Self)
        ensures
            result.type_ == type_,
            result.text == text,
            result.content == content,
    {
        PluginResult { type_, text, content }
    }

    /// Creates a plugin result indicating a synchronously successful
    /// request. The provided response JSON will be passed back to the
    /// client: the value is handed over to Janus, which from then on owns
    /// a reference to it, and the count of the value is what it was.
    pub fn ok(response: JanssonValue, native: &mut json_t) -> (result: Self)
        requires
            0 < old(native).refcount < usize::MAX,
        ensures
            result@ == (PluginResultView {
                type_: janus_plugin_result_type::JANUS_PLUGIN_OK,
                text: None,
                content: response@,
            }),
            result.content != 0,
            final(native).type_ == old(native).type_,
            final(native).refcount == old(native).refcount + count_change(WrapperOp::IntoRaw),
    {
        let content = response.into_raw(native);
        PluginResult { type_: janus_plugin_result_type::JANUS_PLUGIN_OK, text: None, content }
    }

    /// Creates a plugin result indicating an asynchronous request in
    /// progress. If provided, the hint text will be synchronously passed
    /// back to the client in the acknowledgement.
    pub fn ok_wait(hint: Option<&str>) -> (result: Self)
        ensures
            result@ == (PluginResultView {
                type_: janus_plugin_result_type::JANUS_PLUGIN_OK_WAIT,
                text: match hint {
                    Some(text) => Some(text@),
                    None => None,
                },
                content: 0,
            }),
    {
        let text = match hint {
            Some(text) => Some(String::from_str(text)),
            None => None,
        };
        PluginResult { type_: janus_plugin_result_type::JANUS_PLUGIN_OK_WAIT, text, content: 0 }
    }

    /// Creates a plugin result indicating an error. The provided error
    /// text will be synchronously passed back to the client.
    pub fn error(msg: &str) -> (result: Self)
        ensures
            result@ == (PluginResultView {
                type_: janus_plugin_result_type::JANUS_PLUGIN_ERROR,
                text: Some(msg@),
                content: 0,
            }),
    {
        PluginResult {
            type_: janus_plugin_result_type::JANUS_PLUGIN_ERROR,
            text: Some(String::from_str(msg)),
            content: 0,
        }
    }
}

} // verus!

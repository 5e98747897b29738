//! Which parts of the backend a process runs.

use vstd::prelude::*;
use crate::text::{
    ascii_lower, ascii_lower_char, ascii_lowercase, is_ascii_upper, is_white_space, lemma_trim_ends,
    lemma_trim_of_clean, str_eq, trim, trim_str,
};

verus! {

/// The part of the backend that one process runs.
#[derive(Clone, Copy, Debug, PartialEq, Eq, Structural)]
pub enum ProcessRole {
    All,
    Api,
    Workers,
    PushWorker,
    GeocodeWorker,
    FanoutWorker,
}

/// A `PROCESS_ROLE` value that names no role; it holds the value after
/// trimming and ASCII lower-casing.
#[derive(Debug)]
pub struct UnknownProcessRole {
    pub value: String,
}

/// The form in which a role name is compared: trimmed, ASCII lower-cased.
pub open spec fn normalize_role_text(s: Seq<char>) -> Seq<char> {
    ascii_lower(trim(s))
}

/// The role that a normalized name stands for.
pub open spec fn role_from_name(v: Seq<char>) -> Option<ProcessRole> {
    if v == ""@ || v == "all"@ {
        Some(ProcessRole::All)
    } else if v == "api"@ || v == "web"@ || v == "http"@ {
        Some(ProcessRole::Api)
    } else if v == "workers"@ || v == "worker"@ {
        Some(ProcessRole::Workers)
    } else if v == "push-worker"@ || v == "push_worker"@ || v == "push"@ {
        Some(ProcessRole::PushWorker)
    } else if v == "geocode-worker"@ || v == "geocode_worker"@ || v == "geocode"@ || v
        == "geocoding"@ {
        Some(ProcessRole::GeocodeWorker)
    } else if v == "fanout-worker"@ || v == "fanout_worker"@ || v == "fanout"@ {
        Some(ProcessRole::FanoutWorker)
    } else {
        None
    }
}

/// The role that a raw `PROCESS_ROLE` value selects.
pub open spec fn spec_role_from_env_value(s: Seq<char>) -> Option<ProcessRole> {
    role_from_name(normalize_role_text(s))
}

impl ProcessRole {
    pub open spec fn spec_serves_http(self) -> bool {
        self == ProcessRole::All || self == ProcessRole::Api
    }

    pub open spec fn spec_starts_push_worker(self) -> bool {
        self == ProcessRole::All || self == ProcessRole::Workers || self == ProcessRole::PushWorker
    }

    pub open spec fn spec_starts_geocode_worker(self) -> bool {
        self == ProcessRole::All || self == ProcessRole::Workers || self
            == ProcessRole::GeocodeWorker
    }

    pub open spec fn spec_starts_fanout_worker(self) -> bool {
        self == ProcessRole::All || self == ProcessRole::Workers || self
            == ProcessRole::FanoutWorker
    }

    /// Reads a `PROCESS_ROLE` value. Surrounding white space and ASCII case
    /// are ignored; the empty value selects `All`.
    pub fn from_env_value(value: &str) -> (r: Result<ProcessRole, UnknownProcessRole>)
        ensures
            match r {
                Ok(role) => spec_role_from_env_value(value@) == Some(role),
                Err(e) => spec_role_from_env_value(value@) is None && e.value@
                    == normalize_role_text(value@),
            },
    {
        let lowered = ascii_lowercase(trim_str(value));
        let v = lowered.as_str();
        if str_eq(v, "") || str_eq(v, "all") {
            Ok(ProcessRole::All)
        } else if str_eq(v, "api") || str_eq(v, "web") || str_eq(v, "http") {
            Ok(ProcessRole::Api)
        } else if str_eq(v, "workers") || str_eq(v, "worker") {
            Ok(ProcessRole::Workers)
        } else if str_eq(v, "push-worker") || str_eq(v, "push_worker") || str_eq(v, "push") {
            Ok(ProcessRole::PushWorker)
        } else if str_eq(v, "geocode-worker") || str_eq(v, "geocode_worker") || str_eq(
            v,
            "geocode",
        ) || str_eq(v, "geocoding") {
            Ok(ProcessRole::GeocodeWorker)
        } else if str_eq(v, "fanout-worker") || str_eq(v, "fanout_worker") || str_eq(
            v,
            "fanout",
        ) {
            Ok(ProcessRole::FanoutWorker)
        } else {
            Err(UnknownProcessRole { value: lowered })
        }
    }

    /// Whether the process serves the HTTP API.
    pub fn serves_http(self) -> (r: bool)
        ensures
            r == self.spec_serves_http(),
    {
        match self {
            ProcessRole::All | ProcessRole::Api => true,
            _ => false,
        }
    }

    /// Whether the process starts the push delivery worker.
    pub fn starts_push_worker(self) -> (r: bool)
        ensures
            r == self.spec_starts_push_worker(),
    {
        match self {
            ProcessRole::All | ProcessRole::Workers | ProcessRole::PushWorker => true,
            _ => false,
        }
    }

    /// Whether the process starts the geocoding worker.
    pub fn starts_geocode_worker(self) -> (r: bool)
        ensures
            r == self.spec_starts_geocode_worker(),
    {
        match self {
            ProcessRole::All | ProcessRole::Workers | ProcessRole::GeocodeWorker => true,
            _ => false,
        }
    }

    /// Whether the process starts the rescue fan-out worker.
    pub fn starts_fanout_worker(self) -> (r: bool)
        ensures
            r == self.spec_starts_fanout_worker(),
    {
        match self {
            ProcessRole::All | ProcessRole::Workers | ProcessRole::FanoutWorker => true,
            _ => false,
        }
    }

    /// Whether the process runs the realtime bridge: exactly the processes
    /// that serve HTTP.
    pub fn starts_realtime_bridge(self) -> (r: bool)
        ensures
            r == self.spec_serves_http(),
    {
        self.serves_http()
    }
}

proof fn lemma_ascii_lower_char_props(c: char)
    ensures
        is_white_space(ascii_lower_char(c)) == is_white_space(c),
        ascii_lower_char(ascii_lower_char(c)) == ascii_lower_char(c),
{
    if is_ascii_upper(c) {
        let l = ascii_lower_char(c);
        assert(c as u8 == c as u32);
        assert(97 <= l as u32 <= 122);
    }
}

/// Law: role parsing depends on the normalized text alone: a value and
/// its trimmed, ASCII lower-cased form select the same role.
pub proof fn lemma_role_parsing_is_normalization_invariant(s: Seq<char>)
    ensures
        spec_role_from_env_value(normalize_role_text(s)) == spec_role_from_env_value(s),
{
    let t = trim(s);
    let l = ascii_lower(t);
    lemma_trim_ends(s);
    if l.len() > 0 {
        lemma_ascii_lower_char_props(t[0]);
        lemma_ascii_lower_char_props(t.last());
        assert(l.last() == ascii_lower_char(t.last()));
    }
    lemma_trim_of_clean(l);
    assert forall|i: int| 0 <= i < l.len() implies ascii_lower(l)[i] == l[i] by {
        lemma_ascii_lower_char_props(t[i]);
    }
    assert(ascii_lower(l) =~= l);
}

proof fn lemma_clean_lowercase_is_normal(s: Seq<char>)
    requires
        s.len() > 0,
        !is_white_space(s[0]),
        !is_white_space(s.last()),
        forall|i: int| 0 <= i < s.len() ==> !is_ascii_upper(#[trigger] s[i]),
    ensures
        normalize_role_text(s) == s,
{
    lemma_trim_of_clean(s);
    assert(ascii_lower(s) =~= s);
}

/// Law: each role's canonical name selects that role.
pub proof fn lemma_canonical_role_names()
    ensures
        spec_role_from_env_value("all"@) == Some(ProcessRole::All),
        spec_role_from_env_value("api"@) == Some(ProcessRole::Api),
        spec_role_from_env_value("workers"@) == Some(ProcessRole::Workers),
        spec_role_from_env_value("push-worker"@) == Some(ProcessRole::PushWorker),
        spec_role_from_env_value("geocode-worker"@) == Some(ProcessRole::GeocodeWorker),
        spec_role_from_env_value("fanout-worker"@) == Some(ProcessRole::FanoutWorker),
{
    reveal_strlit("");
    reveal_strlit("all");
    reveal_strlit("api");
    reveal_strlit("web");
    reveal_strlit("http");
    reveal_strlit("workers");
    reveal_strlit("worker");
    reveal_strlit("push-worker");
    reveal_strlit("push_worker");
    reveal_strlit("push");
    reveal_strlit("geocode-worker");
    reveal_strlit("geocode_worker");
    reveal_strlit("geocode");
    reveal_strlit("geocoding");
    reveal_strlit("fanout-worker");
    reveal_strlit("fanout_worker");
    reveal_strlit("fanout");
    lemma_clean_lowercase_is_normal("all"@);
    lemma_clean_lowercase_is_normal("api"@);
    lemma_clean_lowercase_is_normal("workers"@);
    lemma_clean_lowercase_is_normal("push-worker"@);
    lemma_clean_lowercase_is_normal("geocode-worker"@);
    lemma_clean_lowercase_is_normal("fanout-worker"@);
}

} // verus!

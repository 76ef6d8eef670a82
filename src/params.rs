use vstd::prelude::*;

verus! {

#[verifier::external_type_specification]
#[verifier::external_body]
pub struct ExJsonValue(serde_json::Value);

#[verifier::external_type_specification]
#[verifier::external_body]
pub struct ExJsonError(serde_json::Error);

/// The JSON text that the encoder makes of a value, or `None` where it fails.
pub uninterp spec fn raw_json_of(v: serde_json::Value) -> Option<Seq<char>>;

/// Relies on `serde_json::value::to_raw_value`: it encodes the value as JSON text
/// or returns the encoder's error; the outcome depends on the value alone.
#[verifier::external_body]
fn to_raw_json(value: &serde_json::Value) -> (r: Result<String, serde_json::Error>)
    ensures
        match r {
            Ok(s) => raw_json_of(*value) == Some(s@),
            Err(_) => raw_json_of(*value) is None,
        },
{
    match serde_json::value::to_raw_value(value) {
        Ok(raw) => Ok(raw.get().to_string()),
        Err(e) => Err(e),
    }
}

/// Where the parameters stand: still typed, or encoded as JSON text.
pub enum ParamsState {
    Typed(serde_json::Value),
    Serialized(String),
}

/// Call parameters that are encoded on first use and cached from then on.
pub struct ParamsOnce {
    state: ParamsState,
    typed: Ghost<serde_json::Value>,
}

impl ParamsOnce {
    /// The cache holds the typed value, or the encoder's text for it.
    #[verifier::type_invariant]
    spec fn consistent(&self) -> bool {
        match self.state {
            ParamsState::Typed(v) => v == self.typed@,
            ParamsState::Serialized(s) => raw_json_of(self.typed@) == Some(s@),
        }
    }

    /// The typed parameters.
    pub closed spec fn value(&self) -> serde_json::Value {
        self.typed@
    }

    /// The cached encoding, if the parameters have been encoded.
    pub closed spec fn encoded(&self) -> Option<Seq<char>> {
        match self.state {
            ParamsState::Typed(_) => None,
            ParamsState::Serialized(s) => Some(s@),
        }
    }

    pub fn new(params: serde_json::Value) -> (r: Self)
        ensures
            r.value() == params,
            r.encoded() is None,
    {
        let ghost typed = params;
        ParamsOnce { state: ParamsState::Typed(params), typed: Ghost(typed) }
    }

    pub fn is_encoded(&self) -> (r: bool)
        ensures
            r == self.encoded() is Some,
    {
        match self.state {
            ParamsState::Typed(_) => false,
            ParamsState::Serialized(_) => true,
        }
    }

    /// Returns the encoded parameters: the encoder's text for the typed value,
    /// or its error. Only the first successful call asks the encoder; its text
    /// is cached and returned by every later call. A failure caches nothing.
    pub fn get(&mut self) -> (r: Result<String, serde_json::Error>)
        ensures
            final(self).value() == old(self).value(),
            old(self).encoded() is Some ==> *final(self) == *old(self) && (r matches Ok(s)
                && Some(s@) == old(self).encoded()),
            match r {
                Ok(s) => raw_json_of(old(self).value()) == Some(s@) && final(self).encoded() == Some(s@),
                Err(_) => raw_json_of(old(self).value()) is None && *final(self) == *old(self),
            },
    {
        proof {
            use_type_invariant(&*self);
        }
        match &self.state {
            ParamsState::Typed(_) => self.init(),
            ParamsState::Serialized(p) => Ok(p.clone()),
        }
    }

    fn init(&mut self) -> (r: Result<String, serde_json::Error>)
        requires
            old(self).encoded() is None,
        ensures
            final(self).value() == old(self).value(),
            match r {
                Ok(s) => raw_json_of(old(self).value()) == Some(s@) && final(self).encoded() == Some(s@),
                Err(_) => raw_json_of(old(self).value()) is None && *final(self) == *old(self),
            },
    {
        proof {
            use_type_invariant(&*self);
        }
        let encoded = match &self.state {
            ParamsState::Typed(v) => to_raw_json(v),
            ParamsState::Serialized(s) => Ok(s.clone()),
        };
        match encoded {
            Ok(s) => {
                self.state = ParamsState::Serialized(s.clone());
                Ok(s)
            },
            Err(e) => Err(e),
        }
    }
}

} // verus!

use vstd::prelude::*;

verus! {

/// The kind of a result that crosses back to the caller.
#[derive(Clone, Copy, Debug, PartialEq, Eq, Structural)]
pub enum ProtosocketResponseType {
    SetSuccess,
    GetHit,
    GetMiss,
    Error,
}

/// The tag string under which each kind is handed to the caller.
pub open spec fn response_type_name(t: ProtosocketResponseType) -> Seq<char> {
    match t {
        ProtosocketResponseType::SetSuccess => "SetSuccess"@,
        ProtosocketResponseType::GetHit => "GetHit"@,
        ProtosocketResponseType::GetMiss => "GetMiss"@,
        ProtosocketResponseType::Error => "Error"@,
    }
}

impl ProtosocketResponseType {
    /// The tag string of this kind.
    pub fn name(&self) -> (r: &'static str)
        ensures
            r@ == response_type_name(*self),
    {
        match self {
            ProtosocketResponseType::SetSuccess => "SetSuccess",
            ProtosocketResponseType::GetHit => "GetHit",
            ProtosocketResponseType::GetMiss => "GetMiss",
            ProtosocketResponseType::Error => "Error",
        }
    }
}

/// A byte buffer owned by the result that carries it.
#[derive(Clone, Debug)]
pub struct Bytes {
    pub data: Vec<u8>,
}

impl View for Bytes {
    type V = Seq<u8>;

    open spec fn view(&self) -> Seq<u8> {
        self.data@
    }
}

impl Bytes {
    /// Number of bytes held.
    pub fn length(&self) -> (r: usize)
        ensures
            r == self@.len(),
    {
        self.data.len()
    }
}

/// What a cache operation came to.
#[derive(Clone, Debug)]
pub enum Outcome {
    SetSuccess,
    GetHit { value: Vec<u8> },
    GetMiss,
    Error { message: String },
}

/// Mathematical counterpart of [`Outcome`].
pub enum OutcomeView {
    SetSuccess,
    GetHit { value: Seq<u8> },
    GetMiss,
    Error { message: Seq<char> },
}

impl View for Outcome {
    type V = OutcomeView;

    open spec fn view(&self) -> OutcomeView {
        match self {
            Outcome::SetSuccess => OutcomeView::SetSuccess,
            Outcome::GetHit { value } => OutcomeView::GetHit { value: value@ },
            Outcome::GetMiss => OutcomeView::GetMiss,
            Outcome::Error { message } => OutcomeView::Error { message: message@ },
        }
    }
}

/// The record handed to the caller for every finished or rejected operation.
#[derive(Clone, Debug)]
pub struct ProtosocketResult {
    pub response_type: ProtosocketResponseType,
    pub value: Option<Bytes>,
    pub error_message: Option<String>,
}

/// Mathematical counterpart of [`ProtosocketResult`].
pub struct ResultView {
    pub response_type: ProtosocketResponseType,
    pub value: Option<Seq<u8>>,
    pub error_message: Option<Seq<char>>,
}

impl View for ProtosocketResult {
    type V = ResultView;

    open spec fn view(&self) -> ResultView {
        ResultView {
            response_type: self.response_type,
            value: match self.value {
                Some(b) => Some(b@),
                None => None,
            },
            error_message: match self.error_message {
                Some(m) => Some(m@),
                None => None,
            },
        }
    }
}

impl ResultView {
    /// The payload fields agree with the kind: a hit carries a value and
    /// nothing else, an error carries a message and nothing else, and the
    /// other kinds carry neither.
    pub open spec fn wf(self) -> bool {
        &&& (self.value is Some <==> self.response_type == ProtosocketResponseType::GetHit)
        &&& (self.error_message is Some <==> self.response_type == ProtosocketResponseType::Error)
    }
}

/// The kind under which an outcome is reported.
pub open spec fn kind_of(o: OutcomeView) -> ProtosocketResponseType {
    match o {
        OutcomeView::SetSuccess => ProtosocketResponseType::SetSuccess,
        OutcomeView::GetHit { .. } => ProtosocketResponseType::GetHit,
        OutcomeView::GetMiss => ProtosocketResponseType::GetMiss,
        OutcomeView::Error { .. } => ProtosocketResponseType::Error,
    }
}

/// The record that reports an outcome.
pub open spec fn result_of(o: OutcomeView) -> ResultView {
    ResultView {
        response_type: kind_of(o),
        value: match o {
            OutcomeView::GetHit { value } => Some(value),
            _ => None,
        },
        error_message: match o {
            OutcomeView::Error { message } => Some(message),
            _ => None,
        },
    }
}

impl ProtosocketResult {
    /// Builds the record that reports `outcome`; a hit's bytes move into
    /// the record.
    pub fn from_outcome(outcome: Outcome) -> (r: ProtosocketResult)
        ensures
            r@ == result_of(outcome@),
            r@.wf(),
    {
        match outcome {
            Outcome::SetSuccess => ProtosocketResult {
                response_type: ProtosocketResponseType::SetSuccess,
                value: None,
                error_message: None,
            },
            Outcome::GetHit { value } => ProtosocketResult {
                response_type: ProtosocketResponseType::GetHit,
                value: Some(Bytes { data: value }),
                error_message: None,
            },
            Outcome::GetMiss => ProtosocketResult {
                response_type: ProtosocketResponseType::GetMiss,
                value: None,
                error_message: None,
            },
            Outcome::Error { message } => ProtosocketResult {
                response_type: ProtosocketResponseType::Error,
                value: None,
                error_message: Some(message),
            },
        }
    }

    /// An error record with the given message.
    pub fn error(message: String) -> (r: ProtosocketResult)
        ensures
            r@ == result_of(OutcomeView::Error { message: message@ }),
            r@.wf(),
    {
        ProtosocketResult::from_outcome(Outcome::Error { message })
    }
}

} // verus!

//! The echo call that shows an error in the backend's message area.

use rmpv::Value;
use vstd::prelude::*;
use vstd::string::StringExecFns;

verus! {

/// A value of the RPC encoding.
#[verifier::external_type_specification]
#[verifier::external_body]
pub struct ExValue(rmpv::Value);

/// The items of an array value, each by the text that it holds.
pub uninterp spec fn array_texts(value: Value) -> Seq<Seq<char>>;

/// The texts of a chunk as the backend expects them: the text, then the
/// highlight group.
pub open spec fn chunk_texts(text: Seq<char>, highlight: Seq<char>) -> Seq<Seq<char>> {
    seq![text, highlight]
}

/// `Value::Array` over two `Value::String`, each made from a `&str`: the
/// array that holds `text` and then `highlight`, both as strings.
#[verifier::external_body]
fn text_pair(text: &str, highlight: &str) -> (value: Value)
    ensures
        array_texts(value) == chunk_texts(text@, highlight@),
{
    Value::Array(vec![Value::String(text.into()), Value::String(highlight.into())])
}

/// The highlight group that error text is shown in.
pub const ERROR_HIGHLIGHT: &'static str = "ErrorMsg";

/// The chunk that opens every error message.
pub const ERROR_PREFIX: &'static str = "Error: ";

/// A piece of text and the highlight group it is shown in.
#[derive(Debug, Clone, PartialEq, Eq)]
pub struct EchoChunk {
    pub text: String,
    pub highlight: String,
}

/// What an echo call carries.
#[derive(Debug, Clone, PartialEq, Eq)]
pub struct EchoRequest {
    /// The pieces of the message, in order.
    pub chunks: Vec<EchoChunk>,
    /// The message is kept in the message history.
    pub history: bool,
}

impl View for EchoChunk {
    type V = (Seq<char>, Seq<char>);

    open spec fn view(&self) -> (Seq<char>, Seq<char>) {
        (self.text@, self.highlight@)
    }
}

impl EchoChunk {
    /// This chunk as the array that the echo call takes for it.
    pub fn to_value(&self) -> (value: Value)
        ensures
            array_texts(value) == chunk_texts(self.text@, self.highlight@),
    {
        text_pair(self.text.as_str(), self.highlight.as_str())
    }
}

impl EchoRequest {
    /// The chunks of this request as the echo call takes them: one array
    /// for each chunk, in order.
    pub fn values(&self) -> (values: Vec<Value>)
        ensures
            values@.len() == self.chunks@.len(),
            forall|i: int|
                0 <= i < values@.len() ==> array_texts(#[trigger] values@[i]) == chunk_texts(
                    self.chunks@[i].text@,
                    self.chunks@[i].highlight@,
                ),
    {
        let mut values: Vec<Value> = Vec::new();
        let mut i: usize = 0;
        while i < self.chunks.len()
            invariant
                i <= self.chunks@.len(),
                values@.len() == i,
                forall|k: int|
                    0 <= k < i ==> array_texts(#[trigger] values@[k]) == chunk_texts(
                        self.chunks@[k].text@,
                        self.chunks@[k].highlight@,
                    ),
            decreases self.chunks@.len() - i,
        {
            values.push(self.chunks[i].to_value());
            i = i + 1;
        }
        values
    }
}

/// The chunks of the error message for `lines`: the prefix, then each line
/// with a line break at its end, all in the error highlight.
pub open spec fn error_chunks(lines: Seq<String>) -> Seq<(Seq<char>, Seq<char>)> {
    Seq::new(
        lines.len() + 1,
        |i: int|
            if i == 0 {
                (ERROR_PREFIX@, ERROR_HIGHLIGHT@)
            } else {
                (lines[i - 1]@ + "\n"@, ERROR_HIGHLIGHT@)
            },
    )
}

/// The views of `chunks`, in order.
pub open spec fn chunk_views(chunks: Seq<EchoChunk>) -> Seq<(Seq<char>, Seq<char>)> {
    Seq::new(chunks.len(), |i: int| chunks[i]@)
}

/// The echo call that shows `lines` as an error: the chunks of
/// `error_chunks`, kept in the message history.
pub fn show_error_message(lines: &[String]) -> (request: EchoRequest)
    ensures
        chunk_views(request.chunks@) == error_chunks(lines@),
        request.chunks@.len() == lines@.len() + 1,
        request.history,
{
    let mut chunks: Vec<EchoChunk> = Vec::new();
    chunks.push(
        EchoChunk { text: ERROR_PREFIX.to_owned(), highlight: ERROR_HIGHLIGHT.to_owned() },
    );
    let mut i: usize = 0;
    while i < lines.len()
        invariant
            i <= lines@.len(),
            chunks@.len() == i + 1,
            chunks@[0]@ == (ERROR_PREFIX@, ERROR_HIGHLIGHT@),
            forall|k: int| 1 <= k <= i ==> (#[trigger] chunks@[k])@ == (lines@[k - 1]@ + "\n"@,
                ERROR_HIGHLIGHT@),
        decreases lines@.len() - i,
    {
        let mut text = lines[i].clone();
        text.append("\n");
        chunks.push(EchoChunk { text, highlight: ERROR_HIGHLIGHT.to_owned() });
        i = i + 1;
    }
    assert(chunk_views(chunks@) =~= error_chunks(lines@));
    EchoRequest { chunks, history: true }
}

} // verus!

use vstd::prelude::*;
use crate::decimal::{decimal, format_u32};
use crate::text::concat_text;

verus! {

/// The answer of the remote call.
pub struct ResponseData {
    pub id: u32,
    pub message: String,
}

/// What the remote call computes for `param`: record 1, with a message that
/// echoes the parameter.
pub fn server_function(param: String) -> (r: ResponseData)
    ensures
        r.id == 1,
        r.message@ == "Processed: "@ + param@,
{
    ResponseData { id: 1, message: concat_text("Processed: ", param.as_str()) }
}

/// How the client obtains a response for its input.
pub enum Fetch {
    /// No call is made: this is the response.
    Ready(ResponseData),
    /// The remote call is made with this parameter.
    Remote(String),
}

/// An empty input is answered at once with record 0 and a prompt; any other
/// input is sent to the remote call.
pub fn fetch_for(input: &String) -> (r: Fetch)
    ensures
        input@.len() == 0 ==> (r matches Fetch::Ready(d) && d.id == 0 && d.message@ == "Enter input"@),
        input@.len() > 0 ==> (r matches Fetch::Remote(p) && p@ == input@),
{
    if input.as_str().is_empty() {
        Fetch::Ready(ResponseData { id: 0, message: String::from_str("Enter input") })
    } else {
        Fetch::Remote(input.clone())
    }
}

/// Where the response for the current input stands.
pub enum Outcome {
    Loading,
    Loaded(ResponseData),
    /// The call failed, with the error's text.
    Failed(String),
}

/// The lines of status text shown for an outcome.
pub open spec fn status_lines(o: Outcome) -> Seq<Seq<char>> {
    match o {
        Outcome::Loading => seq!["Loading..."@],
        Outcome::Loaded(d) => seq!["ID: "@ + decimal(d.id as nat), "Message: "@ + d.message@],
        Outcome::Failed(e) => seq!["Error: "@ + e@],
    }
}

/// What the client component shows: a container of a style class holding a
/// text field, then the status lines.
pub struct ServerView {
    pub class: String,
    pub value: String,
    pub placeholder: String,
    pub lines: Vec<String>,
}

/// The client component for the current input and outcome.
#[allow(non_snake_case)]
pub fn ServerComponent(input: &String, outcome: &Outcome) -> (r: ServerView)
    ensures
        r.class@ == "server-component"@,
        r.value@ == input@,
        r.placeholder@ == "Enter data"@,
        r.lines@.map_values(|l: String| l@) == status_lines(*outcome),
{
    let lines = match outcome {
        Outcome::Loading => vec![String::from_str("Loading...")],
        Outcome::Loaded(d) => {
            let id = format_u32(d.id);
            vec![concat_text("ID: ", id.as_str()), concat_text("Message: ", d.message.as_str())]
        },
        Outcome::Failed(e) => vec![concat_text("Error: ", e.as_str())],
    };
    assert(lines@.map_values(|l: String| l@) =~= status_lines(*outcome));
    ServerView {
        class: String::from_str("server-component"),
        value: input.clone(),
        placeholder: String::from_str("Enter data"),
        lines,
    }
}

} // verus!

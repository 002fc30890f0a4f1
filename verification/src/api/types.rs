//! Request parameters, the response envelope, and the records of the bot API.

use crate::error::Error;
use vstd::prelude::*;
use vstd::string::*;

verus! {

/// The character that stands for a decimal digit.
pub open spec fn digit(d: nat) -> char {
    if d == 0 {
        '0'
    } else if d == 1 {
        '1'
    } else if d == 2 {
        '2'
    } else if d == 3 {
        '3'
    } else if d == 4 {
        '4'
    } else if d == 5 {
        '5'
    } else if d == 6 {
        '6'
    } else if d == 7 {
        '7'
    } else if d == 8 {
        '8'
    } else {
        '9'
    }
}

/// The decimal numeral of a natural number, without leading zeros.
pub open spec fn decimal_nat(n: nat) -> Seq<char>
    decreases n,
{
    if n < 10 {
        seq![digit(n)]
    } else {
        decimal_nat(n / 10).push(digit(n % 10))
    }
}

/// The decimal numeral of an integer: a minus sign in front of a negative one.
pub open spec fn decimal(n: int) -> Seq<char> {
    if n < 0 {
        seq!['-'] + decimal_nat((-n) as nat)
    } else {
        decimal_nat(n as nat)
    }
}

/// The text of `true` and of `false`.
pub open spec fn boolean(b: bool) -> Seq<char> {
    if b {
        seq!['t', 'r', 'u', 'e']
    } else {
        seq!['f', 'a', 'l', 's', 'e']
    }
}

fn digit_text(d: u64) -> (text: &'static str)
    requires
        d < 10,
    ensures
        text@ == seq![digit(d as nat)],
{
    proof {
        reveal_strlit("0");
        reveal_strlit("1");
        reveal_strlit("2");
        reveal_strlit("3");
        reveal_strlit("4");
        reveal_strlit("5");
        reveal_strlit("6");
        reveal_strlit("7");
        reveal_strlit("8");
        reveal_strlit("9");
    }
    let text = if d == 0 {
        "0"
    } else if d == 1 {
        "1"
    } else if d == 2 {
        "2"
    } else if d == 3 {
        "3"
    } else if d == 4 {
        "4"
    } else if d == 5 {
        "5"
    } else if d == 6 {
        "6"
    } else if d == 7 {
        "7"
    } else if d == 8 {
        "8"
    } else {
        "9"
    };
    assert(text@ =~= seq![digit(d as nat)]);
    text
}

fn push_decimal(out: &mut String, n: u64)
    ensures
        final(out)@ == old(out)@ + decimal_nat(n as nat),
    decreases n,
{
    if n >= 10 {
        push_decimal(out, n / 10);
    }
    out.append(digit_text(n % 10));
    assert(out@ =~= old(out)@ + decimal_nat(n as nat));
}

/// A value that can stand in a request parameter.
pub trait ToParam {
    /// The canonical string form of the value.
    spec fn param_text(&self) -> Seq<char>;

    /// Writes the value out in its canonical string form.
    fn to_param(&self) -> (text: String)
        ensures
            text@ == self.param_text(),
    ;
}

impl ToParam for i64 {
    open spec fn param_text(&self) -> Seq<char> {
        decimal(*self as int)
    }

    fn to_param(&self) -> (text: String) {
        let n: i64 = *self;
        let mut text = String::new();
        if n < 0 {
            proof {
                reveal_strlit("-");
            }
            text.append("-");
            let magnitude: u64 = (-(n + 1)) as u64 + 1;
            push_decimal(&mut text, magnitude);
        } else {
            push_decimal(&mut text, n as u64);
        }
        assert(text@ =~= decimal(n as int));
        text
    }
}

impl ToParam for bool {
    open spec fn param_text(&self) -> Seq<char> {
        boolean(*self)
    }

    fn to_param(&self) -> (text: String) {
        proof {
            reveal_strlit("true");
            reveal_strlit("false");
        }
        let text = if *self {
            String::from_str("true")
        } else {
            String::from_str("false")
        };
        assert(text@ =~= boolean(*self));
        text
    }
}

impl ToParam for String {
    open spec fn param_text(&self) -> Seq<char> {
        self@
    }

    fn to_param(&self) -> (text: String) {
        self.clone()
    }
}

impl<'b> ToParam for &'b str {
    open spec fn param_text(&self) -> Seq<char> {
        self@
    }

    fn to_param(&self) -> (text: String) {
        String::from_str(*self)
    }
}

/// One request parameter: a key and the text of its value.
pub struct Pair<'a> {
    key: &'a str,
    value: String,
}

impl<'a> View for Pair<'a> {
    type V = (Seq<char>, Seq<char>);

    closed spec fn view(&self) -> (Seq<char>, Seq<char>) {
        (self.key@, self.value@)
    }
}

impl<'a> Clone for Pair<'a> {
    fn clone(&self) -> (copy: Pair<'a>)
        ensures
            copy@ == self@,
    {
        Pair { key: self.key, value: self.value.clone() }
    }
}

/// A parameter as it stands in a request body: the key, an equals sign, the value.
pub open spec fn encode_pair(pair: (Seq<char>, Seq<char>)) -> Seq<char> {
    pair.0 + seq!['='] + pair.1
}

/// The request body of a parameter list: its parameters in order, with an
/// ampersand between each two.
pub open spec fn encode(params: Seq<(Seq<char>, Seq<char>)>) -> Seq<char>
    decreases params.len(),
{
    if params.len() == 0 {
        Seq::empty()
    } else if params.len() == 1 {
        encode_pair(params[0])
    } else {
        encode(params.drop_last()) + seq!['&'] + encode_pair(params.last())
    }
}

/// The parameters of a request, in the order in which they were added.
pub struct UrlParams<'a> {
    map: Vec<Pair<'a>>,
}

impl<'a> View for UrlParams<'a> {
    type V = Seq<(Seq<char>, Seq<char>)>;

    closed spec fn view(&self) -> Seq<(Seq<char>, Seq<char>)> {
        Seq::new(self.map@.len(), |i: int| self.map@[i]@)
    }
}

impl<'a> UrlParams<'a> {
    /// An empty parameter list.
    pub fn new() -> (params: UrlParams<'a>)
        ensures
            params@ == Seq::<(Seq<char>, Seq<char>)>::empty(),
    {
        let params = UrlParams { map: Vec::new() };
        assert(params@ =~= Seq::empty());
        params
    }

    /// Adds the parameter if a value is given, and nothing otherwise.
    pub fn add_opt_value<T: ToParam>(&mut self, key: &'a str, opt_value: Option<T>)
        ensures
            final(self)@ == match opt_value {
                Some(value) => old(self)@.push((key@, value.param_text())),
                None => old(self)@,
            },
    {
        if let Some(value) = opt_value {
            self.add_value(key, value);
        }
    }

    /// Adds the parameter at the end of the list.
    pub fn add_value<T: ToParam>(&mut self, key: &'a str, value: T)
        ensures
            final(self)@ == old(self)@.push((key@, value.param_text())),
    {
        self.map.push(Pair { key: key, value: value.to_param() });
        assert(self@ =~= old(self)@.push((key@, value.param_text())));
    }

    /// The request body that carries these parameters.
    pub fn get_url_string(self) -> (body: String)
        ensures
            body@ == encode(self@),
    {
        proof {
            reveal_strlit("&");
            reveal_strlit("=");
        }
        let mut body = String::new();
        let mut i: usize = 0;
        while i < self.map.len()
            invariant
                i <= self.map.len(),
                body@ == encode(self@.take(i as int)),
                "&"@ == seq!['&'],
                "="@ == seq!['='],
            decreases self.map.len() - i,
        {
            if i > 0 {
                body.append("&");
            }
            body.append(self.map[i].key);
            body.append("=");
            body.append(self.map[i].value.as_str());
            proof {
                let prefix = self@.take(i + 1);
                assert(prefix.drop_last() =~= self@.take(i as int));
                assert(prefix.last() == self@[i as int]);
                assert(body@ =~= encode(prefix));
            }
            i += 1;
        }
        assert(self@.take(i as int) =~= self@);
        body
    }
}

fn clone_text(text: &Option<String>) -> (copy: Option<String>)
    ensures
        copy == *text,
{
    match text {
        Some(text) => Some(text.clone()),
        None => None,
    }
}

/// The envelope in which the server wraps every answer.
#[derive(Debug, PartialEq)]
pub struct Response<T> {
    pub ok: bool,
    pub error_code: Option<i64>,
    pub description: Option<String>,
    pub result: Option<T>,
}

impl<T: Clone> Clone for Response<T> {
    fn clone(&self) -> (copy: Response<T>)
        ensures
            copy.ok == self.ok,
            copy.error_code == self.error_code,
            copy.description == self.description,
            match (self.result, copy.result) {
                (Some(result), Some(copied)) => cloned::<T>(result, copied),
                (None, None) => true,
                _ => false,
            },
    {
        Response {
            ok: self.ok,
            error_code: self.error_code,
            description: clone_text(&self.description),
            result: self.result.clone(),
        }
    }
}

/// Telegram type "Chat".
#[derive(Debug, PartialEq)]
pub struct Chat {
    pub id: i64,
    pub first_name: String,
    pub last_name: Option<String>,
}

impl Clone for Chat {
    fn clone(&self) -> (copy: Chat)
        ensures
            copy == *self,
    {
        Chat {
            id: self.id,
            first_name: self.first_name.clone(),
            last_name: clone_text(&self.last_name),
        }
    }
}

/// Telegram type "User".
#[derive(Debug, PartialEq)]
pub struct User {
    pub id: i64,
    pub first_name: String,
    pub is_bot: bool,
    pub language_code: Option<String>,
    pub last_name: Option<String>,
}

impl Clone for User {
    fn clone(&self) -> (copy: User)
        ensures
            copy == *self,
    {
        User {
            id: self.id,
            first_name: self.first_name.clone(),
            is_bot: self.is_bot,
            language_code: clone_text(&self.language_code),
            last_name: clone_text(&self.last_name),
        }
    }
}

/// Telegram type "Message".
#[derive(Debug, PartialEq)]
pub struct Message {
    pub chat: Chat,
    pub date: i64,
    pub from: User,
    pub message_id: i64,
    pub text: Option<String>,
}

impl Clone for Message {
    fn clone(&self) -> (copy: Message)
        ensures
            copy == *self,
    {
        Message {
            chat: self.chat.clone(),
            date: self.date,
            from: self.from.clone(),
            message_id: self.message_id,
            text: clone_text(&self.text),
        }
    }
}

/// Telegram type "Update".
#[derive(Debug, PartialEq)]
pub struct Update {
    pub update_id: i64,
    pub message: Option<Message>,
}

impl Clone for Update {
    fn clone(&self) -> (copy: Update)
        ensures
            copy == *self,
    {
        Update {
            update_id: self.update_id,
            message: match &self.message {
                Some(message) => Some(message.clone()),
                None => None,
            },
        }
    }
}

/// What the server's envelope amounts to.
pub enum Verdict {
    /// The server refused the request and said why.
    Refused,
    /// The server answered with a result.
    Answered,
    /// Neither of the two.
    Malformed,
}

impl<T> Response<T> {
    /// How the envelope reads: a refusal with a description comes first, then a
    /// success with a result; everything else is malformed.
    pub open spec fn verdict(&self) -> Verdict {
        if !self.ok && self.description is Some {
            Verdict::Refused
        } else if self.ok && self.result is Some {
            Verdict::Answered
        } else {
            Verdict::Malformed
        }
    }

    /// Opens the envelope: the result of a success, the description of a
    /// refusal as an API error, and an invalid-state error for anything else.
    pub fn into_result(self) -> (outcome: Result<T, Error>)
        ensures
            match self.verdict() {
                Verdict::Refused => outcome == Err::<T, Error>(
                    Error::Api(self.description->Some_0),
                ),
                Verdict::Answered => outcome == Ok::<T, Error>(self.result->Some_0),
                Verdict::Malformed => outcome matches Err(Error::InvalidState(text))
                    && text@ == "Invalid server response"@,
            },
    {
        if !self.ok {
            if let Some(description) = self.description {
                return Err(Error::Api(description));
            }
        } else if let Some(result) = self.result {
            return Ok(result);
        }
        Err(Error::InvalidState(String::from_str("Invalid server response")))
    }
}

} // verus!

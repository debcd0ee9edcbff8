//! Messages to users: who sends what to whom. Rendering the templates and
//! talking to the relay are left to the caller.

use crate::config::Config;
use vstd::prelude::*;
use vstd::string::{StrSliceExecFns, StringExecFns};

verus! {

/// The user a message goes to.
#[derive(Debug, PartialEq)]
pub struct User {
    /// The user's full name.
    pub name: String,
    /// The user's email address.
    pub email: String,
}

/// An email to a user, about one URL.
pub struct Email {
    /// The user the message goes to.
    user: User,
    /// The URL the message is about.
    url: String,
    /// The sender, as display name and address.
    from: String,
    /// Settings of the SMTP relay.
    config: Config,
}

/// A message that is ready to be rendered and sent.
#[derive(Debug, PartialEq)]
pub struct Outgoing {
    /// The name of the template that renders the body.
    pub template: String,
    /// The file that holds the template.
    pub template_path: String,
    /// The subject line.
    pub subject: String,
    /// The recipient, as name and address.
    pub to: String,
    /// The sender, as display name and address; replies go there too.
    pub from: String,
    /// The URL the template shows.
    pub url: String,
    /// The name by which the template greets the user.
    pub first_name: String,
}

pub struct OutgoingView {
    pub template: Seq<char>,
    pub template_path: Seq<char>,
    pub subject: Seq<char>,
    pub to: Seq<char>,
    pub from: Seq<char>,
    pub url: Seq<char>,
    pub first_name: Seq<char>,
}

impl View for Outgoing {
    type V = OutgoingView;

    open spec fn view(&self) -> OutgoingView {
        OutgoingView {
            template: self.template@,
            template_path: self.template_path@,
            subject: self.subject@,
            to: self.to@,
            from: self.from@,
            url: self.url@,
            first_name: self.first_name@,
        }
    }
}

/// Whether a character is white space in the sense of Unicode.
pub uninterp spec fn is_whitespace(c: char) -> bool;

/// `char::is_whitespace`.
#[verifier::external_body]
fn char_is_whitespace(c: char) -> (space: bool)
    ensures
        space == is_whitespace(c),
{
    c.is_whitespace()
}

/// The first place at or after `from` whose character is white space if
/// `spaces` is false, and is not if `spaces` is true; the length of the
/// string where there is none.
pub open spec fn scan(s: Seq<char>, from: int, spaces: bool) -> int
    decreases s.len() - from,
{
    if 0 <= from < s.len() && is_whitespace(s[from]) == spaces {
        scan(s, from + 1, spaces)
    } else {
        from
    }
}

/// The first word of a string: what stands between the leading white space
/// and the next. Empty where the string holds nothing but white space.
pub open spec fn first_word(s: Seq<char>) -> Seq<char> {
    let start = scan(s, 0, true);
    s.subrange(start, scan(s, start, false))
}

fn pass_over(text: &str, len: usize, from: usize, spaces: bool) -> (at: usize)
    requires
        len == text@.len(),
        from <= len,
    ensures
        at as int == scan(text@, from as int, spaces),
        from <= at <= len,
{
    let mut at: usize = from;
    let mut more = true;
    while more && at < len
        invariant
            len == text@.len(),
            from <= at <= len,
            scan(text@, from as int, spaces) == scan(text@, at as int, spaces),
            !more ==> at < len && is_whitespace(text@[at as int]) != spaces,
        decreases len - at + (if more { 1int } else { 0int }),
    {
        if char_is_whitespace(text.get_char(at)) == spaces {
            at += 1;
        } else {
            more = false;
        }
    }
    at
}

/// The sender line for an address: the display name, then the address in
/// angle brackets.
pub open spec fn sender_line(address: Seq<char>) -> Seq<char> {
    "RAprogramm <"@ + address + ">"@
}

/// The recipient line for a user: the name, then the address in angle
/// brackets.
pub open spec fn recipient_line(name: Seq<char>, address: Seq<char>) -> Seq<char> {
    name + " <"@ + address + ">"@
}

/// The file that holds the template of the given name.
pub open spec fn template_file(name: Seq<char>) -> Seq<char> {
    "./templates/"@ + name + ".hbs"@
}

impl Email {
    /// The name of the user the message goes to.
    pub closed spec fn user_name(&self) -> Seq<char> {
        self.user.name@
    }

    /// The address of the user the message goes to.
    pub closed spec fn user_email(&self) -> Seq<char> {
        self.user.email@
    }

    /// The URL the message is about.
    pub closed spec fn url(&self) -> Seq<char> {
        self.url@
    }

    /// The sender line.
    pub closed spec fn from(&self) -> Seq<char> {
        self.from@
    }

    /// The sender's address as the settings give it.
    pub closed spec fn smtp_from(&self) -> Seq<char> {
        self.config.smtp_from@
    }

    /// A message for `user` about `url`, sent in the name of the address
    /// that the settings give.
    pub fn new(user: User, url: String, config: Config) -> (email: Email)
        ensures
            email.user_name() == user.name@,
            email.user_email() == user.email@,
            email.url() == url@,
            email.smtp_from() == config.smtp_from@,
            email.from() == sender_line(config.smtp_from@),
    {
        let from = String::from_str("RAprogramm <").concat(config.smtp_from.as_str()).concat(">");
        Email { user, url, from, config }
    }

    /// The settings of the SMTP relay.
    pub fn config(&self) -> (config: &Config)
        ensures
            config.smtp_from@ == self.smtp_from(),
    {
        &self.config
    }

    /// The message that uses the given template under the given subject.
    pub fn send_email(&self, template_name: &str, subject: &str) -> (message: Outgoing)
        ensures
            message@ == self.message(template_name@, subject@),
    {
        Outgoing {
            template: String::from_str(template_name),
            template_path: String::from_str("./templates/").concat(template_name).concat(".hbs"),
            subject: String::from_str(subject),
            to: self.user.name.clone().concat(" <").concat(self.user.email.as_str()).concat(">"),
            from: self.from.clone(),
            url: self.url.clone(),
            first_name: self.first_name(),
        }
    }

    /// The first word of the user's name.
    pub fn first_name(&self) -> (word: String)
        ensures
            word@ == first_word(self.user_name()),
    {
        let name = self.user.name.as_str();
        let len = name.unicode_len();
        let start = pass_over(name, len, 0, true);
        let end = pass_over(name, len, start, false);
        String::from_str(name.substring_char(start, end))
    }

    /// The message that uses the given template under the given subject.
    pub open spec fn message(&self, template: Seq<char>, subject: Seq<char>) -> OutgoingView {
        OutgoingView {
            template,
            template_path: template_file(template),
            subject,
            to: recipient_line(self.user_name(), self.user_email()),
            from: self.from(),
            url: self.url(),
            first_name: first_word(self.user_name()),
        }
    }

    /// The message that carries the account verification code.
    pub fn send_verification_code(&self) -> (message: Outgoing)
        ensures
            message@ == self.message("verification_code"@, "Your account verification code"@),
    {
        self.send_email("verification_code", "Your account verification code")
    }

    /// The message that carries the password reset token.
    pub fn send_password_reset_token(&self) -> (message: Outgoing)
        ensures
            message@ == self.message(
                "reset_password"@,
                "Your password reset token (valid for only 10 minutes)"@,
            ),
    {
        self.send_email("reset_password", "Your password reset token (valid for only 10 minutes)")
    }
}

} // verus!

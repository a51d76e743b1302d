//! Notification channels: what an outbound e-mail provider is asked to send.
//!
//! A channel turns "deliver this message to this destination" into the HTTPS request
//! that its provider's templated-send API expects; sending it is left to the caller.

use vstd::prelude::*;
use crate::json::json_quoted;
use crate::json::json_string;

verus! {

/// How a request authenticates with the provider.
#[derive(Debug, PartialEq, Eq, Clone)]
pub enum Credentials {
    /// `Authorization: Bearer <token>`.
    Bearer { token: String },
    /// HTTP basic authentication.
    Basic { user: String, password: String },
}

/// One text field of a multipart form.
#[derive(Debug, PartialEq, Eq, Clone)]
pub struct FormField {
    pub name: String,
    pub value: String,
}

/// What a request carries.
#[derive(Debug, PartialEq, Eq, Clone)]
pub enum RequestBody {
    /// A JSON document.
    Json { text: String },
    /// A multipart form, fields in order.
    Form { fields: Vec<FormField> },
}

/// An HTTPS `POST` to a notification provider.
#[derive(Debug, PartialEq, Eq, Clone)]
pub struct OutboundRequest {
    pub url: String,
    pub credentials: Credentials,
    pub body: RequestBody,
}

/// The mathematical form of [`Credentials`].
pub enum CredentialsView {
    Bearer { token: Seq<char> },
    Basic { user: Seq<char>, password: Seq<char> },
}

/// The mathematical form of [`RequestBody`]: a form is its `(name, value)` pairs.
pub enum BodyView {
    Json { text: Seq<char> },
    Form { fields: Seq<(Seq<char>, Seq<char>)> },
}

/// The mathematical form of [`OutboundRequest`].
pub struct RequestView {
    pub url: Seq<char>,
    pub credentials: CredentialsView,
    pub body: BodyView,
}

impl View for Credentials {
    type V = CredentialsView;

    open spec fn view(&self) -> CredentialsView {
        match self {
            Credentials::Bearer { token } => CredentialsView::Bearer { token: token@ },
            Credentials::Basic { user, password } => CredentialsView::Basic {
                user: user@,
                password: password@,
            },
        }
    }
}

impl View for FormField {
    type V = (Seq<char>, Seq<char>);

    open spec fn view(&self) -> (Seq<char>, Seq<char>) {
        (self.name@, self.value@)
    }
}

impl View for RequestBody {
    type V = BodyView;

    open spec fn view(&self) -> BodyView {
        match self {
            RequestBody::Json { text } => BodyView::Json { text: text@ },
            RequestBody::Form { fields } => BodyView::Form {
                fields: fields@.map_values(|f: FormField| f@),
            },
        }
    }
}

impl View for OutboundRequest {
    type V = RequestView;

    open spec fn view(&self) -> RequestView {
        RequestView { url: self.url@, credentials: self.credentials@, body: self.body@ }
    }
}

/// Delivery of messages and confirmation links to destinations.
pub trait NotificationChannel {
    /// The request that delivers `message` to `destination`.
    spec fn notify_request(&self, destination: Seq<char>, message: Seq<char>) -> RequestView;

    /// The request that sends `link` to `destination` for confirmation.
    spec fn confirmation_request(&self, destination: Seq<char>, link: Seq<char>) -> RequestView;

    /// Builds the request that asks `destination` to confirm through `confirmation_link`.
    fn request_confirmation(&self, dest: String, confirmation_link: String) -> (r:
        OutboundRequest)
        ensures
            r@ == self.confirmation_request(dest@, confirmation_link@),
    ;

    /// Builds the request that delivers `msg` to `dest`.
    fn notify(&self, dest: String, msg: String) -> (r: OutboundRequest)
        ensures
            r@ == self.notify_request(dest@, msg@),
    ;
}

/// Template variables `{"<name>":<value>}` with one string value.
pub open spec fn one_variable(name: Seq<char>, value: Seq<char>) -> Seq<char> {
    "{"@ + json_quoted(name) + ":"@ + json_quoted(value) + "}"@
}

fn one_variable_json(name: &str, value: &str) -> (r: String)
    ensures
        r@ == one_variable(name@, value@),
{
    let r = String::from_str("{").concat(json_string(name).as_str()).concat(":").concat(
        json_string(value).as_str(),
    ).concat("}");
    assert(r@ =~= one_variable(name@, value@));
    r
}

/// The Mailgun provider, with the account's sending domain, login and API key.
#[derive(Debug, PartialEq, Eq, Clone)]
pub struct Mailgun {
    pub domain: String,
    pub login: String,
    pub api_key: String,
}

/// The Mailgun request that sends `template` with `variables` to `to`.
pub open spec fn mailgun_request(
    account: &Mailgun,
    to: Seq<char>,
    subject: Seq<char>,
    template: Seq<char>,
    variables: Seq<char>,
) -> RequestView {
    RequestView {
        url: "https://api.mailgun.net/v3/"@ + account.domain@ + "/messages"@,
        credentials: CredentialsView::Basic { user: "api"@, password: account.api_key@ },
        body: BodyView::Form {
            fields: seq![
                ("from"@, account.login@),
                ("to"@, to),
                ("subject"@, subject),
                ("template"@, template),
                ("h:X-Mailgun-Variables"@, variables),
            ],
        },
    }
}

fn field(name: &str, value: String) -> (r: FormField)
    ensures
        r@ == (name@, value@),
{
    FormField { name: String::from_str(name), value }
}

impl Mailgun {
    fn send_email(&self, to: String, subject: &str, template: &str, variables_json: String) -> (r:
        OutboundRequest)
        ensures
            r@ == mailgun_request(self, to@, subject@, template@, variables_json@),
    {
        let url = String::from_str("https://api.mailgun.net/v3/").concat(self.domain.as_str()).concat(
            "/messages",
        );
        let mut fields: Vec<FormField> = Vec::new();
        fields.push(field("from", self.login.clone()));
        fields.push(field("to", to));
        fields.push(field("subject", String::from_str(subject)));
        fields.push(field("template", String::from_str(template)));
        fields.push(field("h:X-Mailgun-Variables", variables_json));
        let r = OutboundRequest {
            url,
            credentials: Credentials::Basic {
                user: String::from_str("api"),
                password: self.api_key.clone(),
            },
            body: RequestBody::Form { fields },
        };
        assert(r@.body->Form_fields =~= mailgun_request(
            self,
            to@,
            subject@,
            template@,
            variables_json@,
        ).body->Form_fields);
        r
    }
}

impl NotificationChannel for Mailgun {
    open spec fn notify_request(&self, destination: Seq<char>, message: Seq<char>) -> RequestView {
        mailgun_request(
            self,
            destination,
            "\u{1F37E} You got a message in a bottle!"@,
            "msg-in-a-bottle-v1"@,
            one_variable("msg"@, message),
        )
    }

    open spec fn confirmation_request(&self, destination: Seq<char>, link: Seq<char>) -> RequestView {
        mailgun_request(
            self,
            destination,
            "Hello from message in a bottle!"@,
            "msg-in-a-bottle-confirmation"@,
            one_variable("confirmation_link"@, link),
        )
    }

    fn request_confirmation(&self, dest: String, confirmation_link: String) -> (r: OutboundRequest) {
        let variables = one_variable_json("confirmation_link", confirmation_link.as_str());
        self.send_email(
            dest,
            "Hello from message in a bottle!",
            "msg-in-a-bottle-confirmation",
            variables,
        )
    }

    fn notify(&self, dest: String, msg: String) -> (r: OutboundRequest) {
        let variables = one_variable_json("msg", msg.as_str());
        self.send_email(
            dest,
            "\u{1F37E} You got a message in a bottle!",
            "msg-in-a-bottle-v1",
            variables,
        )
    }
}

/// The SendGrid provider, with the account's API key and the address it sends from.
#[derive(Debug, PartialEq, Eq, Clone)]
pub struct SendGrid {
    pub api_key: String,
    pub sender: String,
}

/// The SendGrid mail-send document that sends its template to `to`, with `data` as the
/// dynamic template data, from and replying to `sender`.
pub open spec fn sendgrid_document(sender: Seq<char>, to: Seq<char>, data: Seq<char>) -> Seq<char> {
    "{\"personalizations\":[{\"to\":[{\"email\":"@ + json_quoted(to)
        + ",\"name\":\"Message in a Bottle\"}],\"dynamic_template_data\":"@ + data
        + "}],\"from\":{\"email\":"@ + json_quoted(sender)
        + ",\"name\":\"Message in a Bottle\"},\"reply_to\":{\"email\":"@ + json_quoted(sender)
        + ",\"name\":\"Message in a Bottle\"},\"template_id\":\"d-3e85b81589ac4a76947baa9b13e2dc05\"}"@
}

/// The SendGrid request that carries `document`.
pub open spec fn sendgrid_request(account: &SendGrid, document: Seq<char>) -> RequestView {
    RequestView {
        url: "https://api.sendgrid.com/v3/mail/send"@,
        credentials: CredentialsView::Bearer { token: account.api_key@ },
        body: BodyView::Json { text: document },
    }
}

impl SendGrid {
    fn send_template(&self, to: &str, data: String) -> (r: OutboundRequest)
        ensures
            r@ == sendgrid_request(self, sendgrid_document(self.sender@, to@, data@)),
    {
        let sender = json_string(self.sender.as_str());
        let text = String::from_str("{\"personalizations\":[{\"to\":[{\"email\":").concat(
            json_string(to).as_str(),
        ).concat(",\"name\":\"Message in a Bottle\"}],\"dynamic_template_data\":").concat(
            data.as_str(),
        ).concat("}],\"from\":{\"email\":").concat(sender.as_str()).concat(
            ",\"name\":\"Message in a Bottle\"},\"reply_to\":{\"email\":",
        ).concat(sender.as_str()).concat(
            ",\"name\":\"Message in a Bottle\"},\"template_id\":\"d-3e85b81589ac4a76947baa9b13e2dc05\"}",
        );
        OutboundRequest {
            url: String::from_str("https://api.sendgrid.com/v3/mail/send"),
            credentials: Credentials::Bearer { token: self.api_key.clone() },
            body: RequestBody::Json { text },
        }
    }
}

impl NotificationChannel for SendGrid {
    open spec fn notify_request(&self, destination: Seq<char>, message: Seq<char>) -> RequestView {
        sendgrid_request(
            self,
            sendgrid_document(self.sender@, destination, one_variable("msg"@, message)),
        )
    }

    open spec fn confirmation_request(&self, destination: Seq<char>, link: Seq<char>) -> RequestView {
        sendgrid_request(
            self,
            sendgrid_document(self.sender@, destination, one_variable("confirmation_link"@, link)),
        )
    }

    fn request_confirmation(&self, dest: String, confirmation_link: String) -> (r: OutboundRequest) {
        let data = one_variable_json("confirmation_link", confirmation_link.as_str());
        self.send_template(dest.as_str(), data)
    }

    fn notify(&self, dest: String, msg: String) -> (r: OutboundRequest) {
        let data = one_variable_json("msg", msg.as_str());
        self.send_template(dest.as_str(), data)
    }
}

/// The notification channel chosen at startup.
#[derive(Debug, PartialEq, Eq, Clone)]
pub enum Dispatcher {
    Mailgun(Mailgun),
    SendGrid(SendGrid),
}

impl NotificationChannel for Dispatcher {
    open spec fn notify_request(&self, destination: Seq<char>, message: Seq<char>) -> RequestView {
        match self {
            Dispatcher::Mailgun(m) => m.notify_request(destination, message),
            Dispatcher::SendGrid(s) => s.notify_request(destination, message),
        }
    }

    open spec fn confirmation_request(&self, destination: Seq<char>, link: Seq<char>) -> RequestView {
        match self {
            Dispatcher::Mailgun(m) => m.confirmation_request(destination, link),
            Dispatcher::SendGrid(s) => s.confirmation_request(destination, link),
        }
    }

    fn request_confirmation(&self, dest: String, confirmation_link: String) -> (r: OutboundRequest) {
        match self {
            Dispatcher::Mailgun(m) => m.request_confirmation(dest, confirmation_link),
            Dispatcher::SendGrid(s) => s.request_confirmation(dest, confirmation_link),
        }
    }

    fn notify(&self, dest: String, msg: String) -> (r: OutboundRequest) {
        match self {
            Dispatcher::Mailgun(m) => m.notify(dest, msg),
            Dispatcher::SendGrid(s) => s.notify(dest, msg),
        }
    }
}

/// The channel to deliver through, from the providers configured at startup: Mailgun
/// when it is configured, else SendGrid, else none.
pub fn default_channel(mailgun: Option<Mailgun>, sendgrid: Option<SendGrid>) -> (r: Option<
    Dispatcher,
>)
    ensures
        mailgun matches Some(m) ==> r == Some(Dispatcher::Mailgun(m)),
        mailgun is None ==> (sendgrid matches Some(s) ==> r == Some(Dispatcher::SendGrid(s))),
        mailgun is None && sendgrid is None ==> r is None,
{
    match mailgun {
        Some(m) => Some(Dispatcher::Mailgun(m)),
        None => match sendgrid {
            Some(s) => Some(Dispatcher::SendGrid(s)),
            None => None,
        },
    }
}

} // verus!

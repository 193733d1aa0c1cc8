//! Display of HTTP responses.

use crate::collection::RecipeId;
use crate::http::models::{HeaderView, RequestId, ResponseRecord};
use crate::view::state::StateCell;
use vstd::prelude::*;

verus! {

/// The items of the menu that the response body offers.
#[derive(Clone, Copy, Debug, PartialEq, Eq, Structural)]
pub enum BodyMenuAction {
    EditCollection,
    ViewBody,
    CopyBody,
    SaveBody,
}

impl BodyMenuAction {
    /// The item as the menu shows it.
    pub open spec fn label(self) -> Seq<char> {
        match self {
            BodyMenuAction::EditCollection => "Edit Collection"@,
            BodyMenuAction::ViewBody => "View Body"@,
            BodyMenuAction::CopyBody => "Copy Body"@,
            BodyMenuAction::SaveBody => "Save Body as File"@,
        }
    }

    /// The item as the menu shows it.
    pub fn to_string(&self) -> (label: String)
        ensures
            label@ == self.label(),
    {
        match self {
            BodyMenuAction::EditCollection => "Edit Collection".to_owned(),
            BodyMenuAction::ViewBody => "View Body".to_owned(),
            BodyMenuAction::CopyBody => "Copy Body".to_owned(),
            BodyMenuAction::SaveBody => "Save Body as File".to_owned(),
        }
    }
}

/// What the view asks of the rest of the program.
#[derive(Debug, PartialEq, Eq)]
pub enum Message {
    /// Open the collection file in the user's editor.
    CollectionEdit,
    /// Show a text in the user's pager.
    ViewText(String),
    /// Copy a text to the clipboard.
    CopyText(String),
    /// Ask for a path and save a response body there. Without `data` the
    /// body is saved as the response holds it.
    SaveResponseBody { request_id: RequestId, data: Option<String> },
}

pub enum MessageView {
    CollectionEdit,
    ViewText(Seq<char>),
    CopyText(Seq<char>),
    SaveResponseBody { request_id: RequestId, data: Option<Seq<char>> },
}

impl DeepView for Message {
    type V = MessageView;

    open spec fn deep_view(&self) -> MessageView {
        match self {
            Message::CollectionEdit => MessageView::CollectionEdit,
            Message::ViewText(text) => MessageView::ViewText(text@),
            Message::CopyText(text) => MessageView::CopyText(text@),
            Message::SaveResponseBody { request_id, data } => MessageView::SaveResponseBody {
                request_id: *request_id,
                data: data.deep_view(),
            },
        }
    }
}

/// What can happen to the response body.
#[derive(Clone, Copy, Debug, PartialEq, Eq, Structural)]
pub enum BodyEvent {
    /// The user asks for the menu.
    OpenActions,
    /// The user has chosen an item of the menu.
    Menu(BodyMenuAction),
    /// Anything else.
    Other,
}

/// What is to be done after the response body has seen an event.
#[derive(Debug, PartialEq, Eq)]
pub enum BodyUpdate {
    /// The event is used up, and the menu is to be opened.
    OpenActions,
    /// The event is used up, and the message is to be sent.
    Send(Message),
    /// The event is used up, and nothing is to be done.
    Consumed,
    /// The event is none of the body's and goes on to whoever is next.
    Propagate,
}

pub enum BodyUpdateView {
    OpenActions,
    Send(MessageView),
    Consumed,
    Propagate,
}

impl DeepView for BodyUpdate {
    type V = BodyUpdateView;

    open spec fn deep_view(&self) -> BodyUpdateView {
        match self {
            BodyUpdate::OpenActions => BodyUpdateView::OpenActions,
            BodyUpdate::Send(message) => BodyUpdateView::Send(message.deep_view()),
            BodyUpdate::Consumed => BodyUpdateView::Consumed,
            BodyUpdate::Propagate => BodyUpdateView::Propagate,
        }
    }
}

/// The body as it is presented. It may differ from the body of the
/// response: it may be filtered or laid out anew, and bytes that are no
/// text are shown as a dump.
#[derive(Debug)]
pub struct BodyText {
    /// The text that the user sees, once the body was drawn.
    pub visible: Option<String>,
    /// The text to save in place of the response's body, where what is
    /// shown is text that was made of it.
    pub parsed: Option<String>,
}

/// What the view keeps for the response of one request.
#[derive(Debug)]
pub struct State {
    pub request_id: RequestId,
    pub body: BodyText,
}

pub struct StateView {
    pub request_id: RequestId,
    pub visible: Option<Seq<char>>,
    pub parsed: Option<Seq<char>>,
}

impl DeepView for State {
    type V = StateView;

    open spec fn deep_view(&self) -> StateView {
        StateView {
            request_id: self.request_id,
            visible: self.body.visible.deep_view(),
            parsed: self.body.parsed.deep_view(),
        }
    }
}

/// What the response body is drawn of.
pub struct ResponseBodyViewProps<'a> {
    pub request_id: RequestId,
    pub recipe_id: &'a RecipeId,
    pub response: &'a ResponseRecord,
}

/// The body of a response. Its state belongs to one request and begins
/// anew when another request is shown.
#[derive(Debug)]
pub struct ResponseBodyView {
    state: StateCell<RequestId, State>,
}

/// What follows from an item of the menu, given what the view keeps.
/// Without state only the collection can be edited; the body can be viewed
/// and copied once it has a text that the user sees.
pub open spec fn menu_update(state: Option<StateView>, action: BodyMenuAction) -> BodyUpdateView {
    match action {
        BodyMenuAction::EditCollection => BodyUpdateView::Send(MessageView::CollectionEdit),
        BodyMenuAction::ViewBody => match state {
            Some(StateView { visible: Some(text), .. }) => BodyUpdateView::Send(
                MessageView::ViewText(text),
            ),
            _ => BodyUpdateView::Consumed,
        },
        BodyMenuAction::CopyBody => match state {
            Some(StateView { visible: Some(text), .. }) => BodyUpdateView::Send(
                MessageView::CopyText(text),
            ),
            _ => BodyUpdateView::Consumed,
        },
        BodyMenuAction::SaveBody => match state {
            Some(state) => BodyUpdateView::Send(
                MessageView::SaveResponseBody { request_id: state.request_id, data: state.parsed },
            ),
            None => BodyUpdateView::Consumed,
        },
    }
}

impl ResponseBodyView {
    /// What the view keeps, where it keeps anything.
    pub closed spec fn state(&self) -> Option<StateView> {
        if self.state.is_set() {
            Some(self.state.value().deep_view())
        } else {
            None
        }
    }

    /// The request whose response the state was made for.
    pub closed spec fn shown(&self) -> Option<RequestId> {
        if self.state.is_set() {
            Some(self.state.key())
        } else {
            None
        }
    }

    /// A view that has shown nothing yet.
    pub fn new() -> (view: Self)
        ensures
            view.state() is None,
            view.shown() is None,
    {
        ResponseBodyView { state: StateCell::new() }
    }

    /// The state to draw the body with. Where the view has shown another
    /// request or none, the state begins anew, without any text.
    pub fn draw(&mut self, props: &ResponseBodyViewProps) -> (state: &State)
        ensures
            final(self).shown() == Some(props.request_id),
            final(self).state() == Some(state.deep_view()),
            if old(self).shown() == Some(props.request_id) {
                final(self).state() == old(self).state()
            } else {
                state.deep_view() == (StateView {
                    request_id: props.request_id,
                    visible: None,
                    parsed: None,
                })
            },
    {
        let request_id = props.request_id;
        let init = || -> (state: State)
            ensures
                state.deep_view() == (StateView { request_id, visible: None, parsed: None }),
            { State { request_id, body: BodyText { visible: None, parsed: None } } };
        self.state.get_or_update(&request_id, init)
    }

    /// Takes note of the text that the body presents.
    pub fn set_text(&mut self, body: BodyText)
        ensures
            final(self).shown() == old(self).shown(),
            final(self).state() == match old(self).state() {
                Some(state) => Some(
                    StateView {
                        request_id: state.request_id,
                        visible: body.visible.deep_view(),
                        parsed: body.parsed.deep_view(),
                    },
                ),
                None => None,
            },
    {
        match self.state.get_mut() {
            Some(state) => {
                state.body = body;
            },
            None => {},
        }
    }

    /// Hands the text that the user sees to `f`, where there is any.
    pub fn with_body<F: FnOnce(&str) -> Message>(&self, f: F) -> (message: Option<Message>)
        requires
            forall|text: &str| call_requires(f, (text,)),
        ensures
            match self.state() {
                Some(StateView { visible: Some(text), .. }) => message matches Some(message)
                    && exists|shown: &str| shown@ == text && call_ensures(f, (shown,), message),
                _ => message is None,
            },
    {
        match self.state.get() {
            Some(state) => match &state.body.visible {
                Some(text) => Some(f(text.as_str())),
                None => None,
            },
            None => None,
        }
    }

    /// Takes an event. The key for the menu opens it. An item of the menu
    /// is carried out as far as the view has what it takes: the collection
    /// is edited at any time; the body is viewed and copied as the user
    /// sees it; it is saved as the text that was made of it, or as it came.
    /// Any other event is passed on.
    pub fn update(&mut self, event: BodyEvent) -> (update: BodyUpdate)
        ensures
            final(self).state() == old(self).state(),
            final(self).shown() == old(self).shown(),
            update.deep_view() == match event {
                BodyEvent::OpenActions => BodyUpdateView::OpenActions,
                BodyEvent::Menu(action) => menu_update(old(self).state(), action),
                BodyEvent::Other => BodyUpdateView::Propagate,
            },
    {
        match event {
            BodyEvent::OpenActions => BodyUpdate::OpenActions,
            BodyEvent::Other => BodyUpdate::Propagate,
            BodyEvent::Menu(action) => match action {
                BodyMenuAction::EditCollection => BodyUpdate::Send(Message::CollectionEdit),
                BodyMenuAction::ViewBody => match self.visible_text() {
                    Some(text) => BodyUpdate::Send(Message::ViewText(text)),
                    None => BodyUpdate::Consumed,
                },
                BodyMenuAction::CopyBody => match self.visible_text() {
                    Some(text) => BodyUpdate::Send(Message::CopyText(text)),
                    None => BodyUpdate::Consumed,
                },
                BodyMenuAction::SaveBody => match self.state.get() {
                    Some(state) => BodyUpdate::Send(
                        Message::SaveResponseBody {
                            request_id: state.request_id,
                            data: match &state.body.parsed {
                                Some(text) => Some(text.clone()),
                                None => None,
                            },
                        },
                    ),
                    None => BodyUpdate::Consumed,
                },
            },
        }
    }

    /// A copy of the text that the user sees.
    fn visible_text(&self) -> (text: Option<String>)
        ensures
            text.deep_view() == match self.state() {
                Some(state) => state.visible,
                None => None,
            },
    {
        match self.state.get() {
            Some(state) => match &state.body.visible {
                Some(text) => Some(text.clone()),
                None => None,
            },
            None => None,
        }
    }
}

impl Default for ResponseBodyView {
    fn default() -> (view: Self)
        ensures
            view.state() is None,
    {
        ResponseBodyView::new()
    }
}

/// What the response headers are drawn of.
pub struct ResponseHeadersViewProps<'a> {
    pub response: &'a ResponseRecord,
}

/// The headers of a response as a table.
#[derive(Debug, Default)]
pub struct ResponseHeadersView;

/// A byte as the character of the same number.
pub open spec fn shown_byte(byte: u8) -> char {
    byte as char
}

/// The rows of the header table: each header's name, and its value with
/// every byte shown as the character of the same number.
pub open spec fn header_rows(headers: Seq<HeaderView>) -> Seq<(Seq<char>, Seq<char>)> {
    Seq::new(
        headers.len(),
        |i: int| (headers[i].0, Seq::new(headers[i].1.len(), |k: int| shown_byte(headers[i].1[k]))),
    )
}

impl ResponseHeadersView {
    /// The rows of the table, one for each header of the response, in the
    /// response's order.
    pub fn draw(&self, props: &ResponseHeadersViewProps) -> (rows: Vec<(String, Vec<char>)>)
        ensures
            rows.len() == props.response.headers.len(),
            forall|i: int|
                0 <= i < rows.len() ==> {
                    &&& (#[trigger] rows[i]).0@ == props.response.headers[i].0@
                    &&& rows[i].1@ == Seq::new(
                        props.response.headers[i].1@.len(),
                        |k: int| shown_byte(props.response.headers[i].1@[k]),
                    )
                },
    {
        let headers = &props.response.headers;
        let mut rows: Vec<(String, Vec<char>)> = Vec::new();
        let mut i: usize = 0;
        while i < headers.len()
            invariant
                i <= headers.len(),
                rows.len() == i,
                forall|j: int|
                    0 <= j < i ==> {
                        &&& (#[trigger] rows[j]).0@ == headers[j].0@
                        &&& rows[j].1@ == Seq::new(
                            headers[j].1@.len(),
                            |k: int| shown_byte(headers[j].1@[k]),
                        )
                    },
            decreases headers.len() - i,
        {
            let value = &headers[i].1;
            let mut text: Vec<char> = Vec::new();
            let mut k: usize = 0;
            while k < value.len()
                invariant
                    k <= value.len(),
                    text.len() == k,
                    forall|j: int| 0 <= j < k ==> text[j] == shown_byte(value[j]),
                decreases value.len() - k,
            {
                text.push(value[k] as char);
                k += 1;
            }
            assert(text@ =~= Seq::new(value@.len(), |k: int| shown_byte(value@[k])));
            rows.push((headers[i].0.clone(), text));
            i += 1;
        }
        rows
    }
}

} // verus!

//! The books component: the list that the books endpoint returned last, a
//! button that asks for it again, and the table that shows it.

use vstd::prelude::*;
use vstd::string::StringExecFns;
use crate::book::{row_of, rows_of, Book, BookView, Row, RowView};
use crate::markup::Button;

verus! {

/// A message for the books component.
#[derive(Clone, Debug, PartialEq, Eq)]
pub enum TestReqMsg {
    /// A fetch has resolved with these books.
    SetFetchState(Vec<Book>),
    /// Ask the endpoint for the books.
    Fetch,
}

/// The state of the books component: the books of the last fetch that
/// resolved, and none before the first one has.
#[derive(Clone, Debug, PartialEq, Eq)]
pub struct TestReq {
    pub response: Vec<Book>,
}

/// What the host has to do after an update.
#[derive(Clone, Copy, Debug, PartialEq, Eq, Structural)]
pub enum Effect {
    /// Nothing.
    Idle,
    /// Start a request for the books in the background, and hand its result
    /// to the component as a `SetFetchState` message once it resolves.
    FetchBooks,
}

/// The result of an update: whether the view has changed, and the work that
/// the host is asked to do.
#[derive(Clone, Copy, Debug, PartialEq, Eq, Structural)]
pub struct Update {
    pub should_render: bool,
    pub effect: Effect,
}

/// What the books component shows.
#[derive(Clone, Debug, PartialEq, Eq)]
pub struct BooksView {
    pub fetch_button: Button<TestReqMsg>,
    pub caption: String,
    pub header: Row,
    pub rows: Vec<Row>,
}

/// The titles of the table's columns.
pub open spec fn header_row() -> RowView {
    RowView {
        id: "#"@,
        title: "Title"@,
        authors: "Authors"@,
        publication_date: "Publication Date"@,
    }
}

/// The path of the books endpoint.
pub open spec fn books_path() -> Seq<char> {
    "/api/books"@
}

impl From<Vec<Book>> for TestReqMsg {
    /// The message that delivers the books of a resolved fetch.
    fn from(s: Vec<Book>) -> (msg: TestReqMsg) {
        TestReqMsg::SetFetchState(s)
    }
}

impl vstd::std_specs::convert::FromSpecImpl<Vec<Book>> for TestReqMsg {
    open spec fn obeys_from_spec() -> bool {
        true
    }

    open spec fn from_spec(s: Vec<Book>) -> TestReqMsg {
        TestReqMsg::SetFetchState(s)
    }
}

impl TestReq {
    /// The books that the component holds.
    pub open spec fn records(self) -> Seq<BookView> {
        self.response.deep_view()
    }

    /// The state after `msg`: a resolved fetch replaces the books, whatever
    /// they were, and a request for a fetch leaves them as they are.
    pub open spec fn step(self, msg: TestReqMsg) -> TestReq {
        match msg {
            TestReqMsg::SetFetchState(val) => TestReq { response: val },
            TestReqMsg::Fetch => self,
        }
    }

    /// The state after the messages `msgs`, delivered in order.
    pub open spec fn run(self, msgs: Seq<TestReqMsg>) -> TestReq
        decreases msgs.len(),
    {
        if msgs.len() == 0 {
            self
        } else {
            self.run(msgs.drop_last()).step(msgs.last())
        }
    }

    /// What an update with `msg` returns: only a resolved fetch changes the
    /// view, and only a request for a fetch gives the host work.
    pub open spec fn outcome(msg: TestReqMsg) -> Update {
        match msg {
            TestReqMsg::SetFetchState(_) => Update { should_render: true, effect: Effect::Idle },
            TestReqMsg::Fetch => Update { should_render: false, effect: Effect::FetchBooks },
        }
    }

    /// A freshly mounted component holds no books, and sends itself the
    /// message that asks for them.
    pub fn create() -> (mounted: (TestReq, TestReqMsg))
        ensures
            mounted.0.response@.len() == 0,
            mounted.1 is Fetch,
    {
        (TestReq { response: Vec::new() }, TestReqMsg::Fetch)
    }

    /// Handles one message.
    pub fn update(&mut self, msg: TestReqMsg) -> (update: Update)
        ensures
            *final(self) == old(self).step(msg),
            update == TestReq::outcome(msg),
    {
        match msg {
            TestReqMsg::Fetch => Update { should_render: false, effect: Effect::FetchBooks },
            TestReqMsg::SetFetchState(val) => {
                self.response = val;
                Update { should_render: true, effect: Effect::Idle }
            },
        }
    }

    /// The view: a button that asks for the books, a caption, and the table,
    /// with one row for each book in the order in which the endpoint
    /// returned them.
    pub fn view(&self) -> (view: BooksView)
        ensures
            view.fetch_button.label@ == "Get Books"@,
            view.fetch_button.on_click is Fetch,
            view.caption@ == "REST response:"@,
            view.header@ == header_row(),
            view.rows@.len() == self.response@.len(),
            view.rows.deep_view() == rows_of(self.records()),
    {
        let mut rows: Vec<Row> = Vec::new();
        let mut i: usize = 0;
        while i < self.response.len()
            invariant
                i <= self.response.len(),
                rows.len() == i,
                forall|j: int| 0 <= j < i ==> rows[j]@ == row_of(self.response[j]@),
            decreases self.response.len() - i,
        {
            rows.push(self.response[i].row());
            i += 1;
        }
        BooksView {
            fetch_button: Button { label: "Get Books".to_owned(), on_click: TestReqMsg::Fetch },
            caption: "REST response:".to_owned(),
            header: Row {
                id: "#".to_owned(),
                title: "Title".to_owned(),
                authors: "Authors".to_owned(),
                publication_date: "Publication Date".to_owned(),
            },
            rows,
        }
    }
}

/// From the moment it is mounted until the first fetch resolves, the
/// component holds no books and its table has no rows, however often a
/// fetch is asked for.
pub proof fn lemma_empty_until_first_result(mounted: TestReq, msgs: Seq<TestReqMsg>)
    requires
        mounted.response@.len() == 0,
        forall|i: int| 0 <= i < msgs.len() ==> msgs[i] is Fetch,
    ensures
        mounted.run(msgs) == mounted,
        mounted.run(msgs).records() == Seq::<BookView>::empty(),
        rows_of(mounted.run(msgs).records()) == Seq::<RowView>::empty(),
    decreases msgs.len(),
{
    if msgs.len() > 0 {
        lemma_empty_until_first_result(mounted, msgs.drop_last());
    }
}

/// The books that the component holds are those of the fetch that resolved
/// last, whatever it held before and whichever fetch was asked for first.
pub proof fn lemma_last_result_wins(state: TestReq, msgs: Seq<TestReqMsg>, last: int)
    requires
        0 <= last < msgs.len(),
        msgs[last] is SetFetchState,
        forall|i: int| last < i < msgs.len() ==> msgs[i] is Fetch,
    ensures
        state.run(msgs).response == msgs[last]->SetFetchState_0,
    decreases msgs.len(),
{
    if last < msgs.len() - 1 {
        lemma_last_result_wins(state, msgs.drop_last(), last);
    }
}

/// The address of the page's origin: the protocol, which ends in a colon,
/// directly followed by the host.
pub fn get_current_url(protocol: &str, host: &str) -> (url: String)
    ensures
        url@ == protocol@ + host@,
{
    protocol.to_owned().concat(host)
}

/// The address of the books endpoint below the origin `base`.
pub fn books_url(base: &str) -> (url: String)
    ensures
        url@ == base@ + books_path(),
{
    base.to_owned().concat("/api/books")
}

} // verus!

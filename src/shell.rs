use vstd::prelude::*;
use crate::github::{decimal, decimal_text, entry_text, profile_text, SearchEntry, SearchRes, User};

verus! {

/// The choices of the main menu.
#[derive(Clone, Copy, Debug, PartialEq, Eq, Structural)]
pub enum Action {
    Search,
    UserInfo,
    Repos,
}

/// How a menu choice is shown.
pub open spec fn action_label(a: Action) -> Seq<char> {
    match a {
        Action::Search => "Search users..."@,
        Action::UserInfo => "User profile"@,
        Action::Repos => "Inspect Repos"@,
    }
}

impl Action {
    /// The choice as shown in the menu.
    pub fn to_string(&self) -> (r: String)
        ensures
            r@ == action_label(*self),
    {
        match self {
            Action::Search => String::from_str("Search users..."),
            Action::UserInfo => String::from_str("User profile"),
            Action::Repos => String::from_str("Inspect Repos"),
        }
    }
}

/// The three choices of the main menu, in the order shown.
pub fn menu_actions() -> (r: Vec<Action>)
    ensures
        r@ == seq![Action::Search, Action::UserInfo, Action::Repos],
{
    vec![Action::Search, Action::UserInfo, Action::Repos]
}

/// How many search entries the selection list shows at a time.
pub const PAGE_SIZE: usize = 10;

/// Shown before each call to the API.
pub const LOADING: &'static str = "Loading...";

/// What the shell is waiting for.
pub enum ShellState {
    /// A choice from the main menu.
    AwaitAction,
    /// The text of a user search.
    AwaitQuery,
    /// The answer of the search for `query`.
    AwaitSearch { query: String },
    /// The choice of one of these entries.
    AwaitSelection { items: Vec<SearchEntry> },
    /// The profile of `login`.
    AwaitProfile { login: String },
}

/// What the caller reports back after carrying out a command.
pub enum ShellEvent {
    /// A choice was made in the main menu.
    Chosen(Action),
    /// Search text was entered.
    Entered(String),
    /// The search answered.
    Found(SearchRes),
    /// The entry at this position of the list was chosen.
    Picked(usize),
    /// The profile arrived.
    Loaded(User),
}

/// What the caller is to do next.
pub enum Command {
    /// Present the main menu.
    AskAction,
    /// Ask for search text.
    AskQuery,
    /// Search users with this text.
    SearchUsers(String),
    /// Present these lines for a choice, this many at a time.
    Pick { labels: Vec<String>, page_size: usize },
    /// Fetch the profile of this login.
    FetchUser(String),
    /// The chosen action has no implementation: stop.
    Unimplemented(Action),
}

/// One move of the shell: the new state, a text to show first (if any), and
/// the next command.
pub struct Step {
    pub state: ShellState,
    pub notice: Option<String>,
    pub command: Command,
}

/// The texts of a list of strings.
pub open spec fn string_texts(v: Seq<String>) -> Seq<Seq<char>> {
    v.map_values(|s: String| s@)
}

/// The lines of a list of search entries.
pub open spec fn entry_labels(items: Seq<SearchEntry>) -> Seq<Seq<char>> {
    items.map_values(|e: SearchEntry| entry_text(e))
}

/// The report of a search without matches.
pub open spec fn no_match_text(query: Seq<char>) -> Seq<char> {
    "🤚 No match for "@ + query + " "@
}

/// The report of the number of matches.
pub open spec fn total_text(n: u32) -> Seq<char> {
    "Total Count: "@ + decimal_text(n as nat)
}

/// A notice holds exactly this text.
pub open spec fn notice_is(n: Option<String>, t: Seq<char>) -> bool {
    n matches Some(s) && s@ == t
}

/// The command that asks for what a state waits for.
pub open spec fn prompts(state: ShellState, c: Command) -> bool {
    match state {
        ShellState::AwaitAction => c is AskAction,
        ShellState::AwaitQuery => c is AskQuery,
        ShellState::AwaitSearch { query } => c matches Command::SearchUsers(q) && q@ == query@,
        ShellState::AwaitSelection { items } => c matches Command::Pick { labels, page_size }
            && string_texts(labels@) == entry_labels(items@) && page_size == PAGE_SIZE,
        ShellState::AwaitProfile { login } => c matches Command::FetchUser(l) && l@ == login@,
    }
}

/// A move that asks for a search of `q`.
pub open spec fn searches(r: Step, q: Seq<char>) -> bool {
    &&& r.state matches ShellState::AwaitSearch { query } && query@ == q
    &&& notice_is(r.notice, LOADING@)
    &&& r.command matches Command::SearchUsers(s) && s@ == q
}

/// A move that asks for the profile of `login`.
pub open spec fn fetches(r: Step, login: Seq<char>) -> bool {
    &&& r.state matches ShellState::AwaitProfile { login: l } && l@ == login
    &&& notice_is(r.notice, LOADING@)
    &&& r.command matches Command::FetchUser(l) && l@ == login
}

/// A move that changes nothing and asks again for what `state` waits for.
pub open spec fn stays(state: ShellState, r: Step) -> bool {
    r.state == state && r.notice is None && prompts(state, r.command)
}

/// The move of the shell from `state` on `event`. An event that the state
/// does not wait for changes nothing and asks again.
pub open spec fn step_result(state: ShellState, event: ShellEvent, r: Step) -> bool {
    match (state, event) {
        (ShellState::AwaitAction, ShellEvent::Chosen(a)) => if a is Search {
            r.state is AwaitQuery && r.notice is None && r.command is AskQuery
        } else {
            r.state is AwaitAction && r.notice is None && r.command == Command::Unimplemented(a)
        },
        (ShellState::AwaitQuery, ShellEvent::Entered(q)) => searches(r, q@),
        (ShellState::AwaitSearch { query }, ShellEvent::Found(res)) => if res.total_count == 0 {
            r.state is AwaitAction && notice_is(r.notice, no_match_text(query@))
                && r.command is AskAction
        } else {
            r.state == (ShellState::AwaitSelection { items: res.items }) && notice_is(
                r.notice,
                total_text(res.total_count),
            ) && prompts(r.state, r.command)
        },
        (ShellState::AwaitSelection { items }, ShellEvent::Picked(i)) => if i < items.len() {
            fetches(r, items@[i as int].login@)
        } else {
            stays(state, r)
        },
        (ShellState::AwaitProfile { login }, ShellEvent::Loaded(u)) => r.state is AwaitAction
            && notice_is(r.notice, profile_text(u)) && r.command is AskAction,
        _ => stays(state, r),
    }
}
/// The lines of a list of search entries, in order.
pub fn labels_of(items: &Vec<SearchEntry>) -> (r: Vec<String>)
    ensures
        string_texts(r@) == entry_labels(items@),
{
    let mut labels: Vec<String> = Vec::new();
    let mut i: usize = 0;
    while i < items.len()
        invariant
            i <= items.len(),
            string_texts(labels@) == entry_labels(items@.subrange(0, i as int)),
        decreases items.len() - i,
    {
        let label = items[i].to_string();
        let ghost prev = labels@;
        labels.push(label);
        assert(string_texts(labels@) =~= string_texts(prev).push(label@));
        assert(items@.subrange(0, i + 1) =~= items@.subrange(0, i as int).push(items@[i as int]));
        assert(entry_labels(items@.subrange(0, i + 1)) =~= entry_labels(items@.subrange(0, i as int)).push(entry_text(items@[i as int])));
        i = i + 1;
    }
    assert(items@.subrange(0, i as int) =~= items@);
    labels
}

/// The command that asks for what `state` waits for.
fn prompt_for(state: &ShellState) -> (r: Command)
    ensures
        prompts(*state, r),
{
    match state {
        ShellState::AwaitAction => Command::AskAction,
        ShellState::AwaitQuery => Command::AskQuery,
        ShellState::AwaitSearch { query } => Command::SearchUsers(query.clone()),
        ShellState::AwaitSelection { items } => Command::Pick {
            labels: labels_of(items),
            page_size: PAGE_SIZE,
        },
        ShellState::AwaitProfile { login } => Command::FetchUser(login.clone()),
    }
}

/// The shell at its start: waiting at the main menu.
pub fn start() -> (r: Step)
    ensures
        r.state is AwaitAction,
        r.notice is None,
        r.command is AskAction,
{
    Step { state: ShellState::AwaitAction, notice: None, command: Command::AskAction }
}

/// One move of the shell: what to show and do next after `event` in `state`.
pub fn step(state: ShellState, event: ShellEvent) -> (r: Step)
    ensures
        step_result(state, event, r),
{
    match (state, event) {
        (ShellState::AwaitAction, ShellEvent::Chosen(a)) => {
            if a == Action::Search {
                Step { state: ShellState::AwaitQuery, notice: None, command: Command::AskQuery }
            } else {
                Step {
                    state: ShellState::AwaitAction,
                    notice: None,
                    command: Command::Unimplemented(a),
                }
            }
        },
        (ShellState::AwaitQuery, ShellEvent::Entered(q)) => {
            let command = Command::SearchUsers(q.clone());
            Step {
                state: ShellState::AwaitSearch { query: q },
                notice: Some(String::from_str(LOADING)),
                command,
            }
        },
        (ShellState::AwaitSearch { query }, ShellEvent::Found(res)) => {
            if res.total_count == 0 {
                let mut text = String::from_str("🤚 No match for ");
                text.append(query.as_str());
                text.append(" ");
                Step { state: ShellState::AwaitAction, notice: Some(text), command: Command::AskAction }
            } else {
                let mut text = String::from_str("Total Count: ");
                let count = decimal(res.total_count);
                text.append(count.as_str());
                let next = ShellState::AwaitSelection { items: res.items };
                let command = prompt_for(&next);
                Step { state: next, notice: Some(text), command }
            }
        },
        (ShellState::AwaitSelection { items }, ShellEvent::Picked(i)) => {
            if i < items.len() {
                let login = items[i].login.clone();
                let command = Command::FetchUser(login.clone());
                Step {
                    state: ShellState::AwaitProfile { login },
                    notice: Some(String::from_str(LOADING)),
                    command,
                }
            } else {
                let same = ShellState::AwaitSelection { items };
                let command = prompt_for(&same);
                Step { state: same, notice: None, command }
            }
        },
        (ShellState::AwaitProfile { login }, ShellEvent::Loaded(u)) => {
            Step {
                state: ShellState::AwaitAction,
                notice: Some(u.to_string()),
                command: Command::AskAction,
            }
        },
        (same, _) => {
            let command = prompt_for(&same);
            Step { state: same, notice: None, command }
        },
    }
}
/// A search without matches is reported as such and leads back to the main
/// menu; no profile is fetched then, nor on whatever event comes next.
pub proof fn lemma_no_match_fetches_nothing(query: String, res: SearchRes, r: Step)
    requires
        res.total_count == 0,
        step_result(ShellState::AwaitSearch { query }, ShellEvent::Found(res), r),
    ensures
        notice_is(r.notice, no_match_text(query@)),
        r.state is AwaitAction,
        r.command is AskAction,
        forall|e: ShellEvent, r2: Step| #[trigger]
            step_result(r.state, e, r2) ==> !(r2.command is FetchUser),
{
}

/// A search with matches leads to a choice among its entries; a profile is
/// fetched only when an entry is chosen, and then exactly the chosen entry's
/// login, once: when the profile arrives, it is shown and the shell is back at
/// the main menu.
pub proof fn lemma_one_fetch_per_selection(
    query: String,
    res: SearchRes,
    i: usize,
    user: User,
    r1: Step,
    r2: Step,
    r3: Step,
)
    requires
        res.total_count > 0,
        i < res.items.len(),
        step_result(ShellState::AwaitSearch { query }, ShellEvent::Found(res), r1),
        step_result(r1.state, ShellEvent::Picked(i), r2),
        step_result(r2.state, ShellEvent::Loaded(user), r3),
    ensures
        !(r1.command is FetchUser),
        forall|e: ShellEvent, r: Step| #[trigger]
            step_result(r1.state, e, r) && r.command is FetchUser ==> exists|j: usize|
                e == ShellEvent::Picked(j) && j < res.items.len() && fetches(
                    r,
                    res.items@[j as int].login@,
                ),
        fetches(r2, res.items@[i as int].login@),
        notice_is(r3.notice, profile_text(user)),
        r3.state is AwaitAction,
        r3.command is AskAction,
{
    assert forall|e: ShellEvent, r: Step| #[trigger]
        step_result(r1.state, e, r) && r.command is FetchUser implies exists|j: usize|
            e == ShellEvent::Picked(j) && j < res.items.len() && fetches(
                r,
                res.items@[j as int].login@,
            ) by {
        if let ShellEvent::Picked(j) = e {
            assert(e == ShellEvent::Picked(j));
        }
    }
}

} // verus!

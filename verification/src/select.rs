//! The selection model: which target and identity are highlighted, which
//! panel has focus, and how key presses move them.
use vstd::prelude::*;
use vstd::arithmetic::div_mod::lemma_fundamental_div_mod;
use vstd::arithmetic::div_mod::lemma_fundamental_div_mod_converse;
use crate::keys::resolve;
use crate::keys::resolved;
use crate::keys::Key;
use crate::keys::KeyAction;
use crate::keys::WorkingKeys;
use crate::settings::all_have_identity;
use crate::settings::all_identified;
use crate::settings::server_views;
use crate::settings::ConfigServer;
use crate::settings::ServerView;
use crate::settings::Settings;
use crate::text::decimal;
use crate::text::decimal_text;
use crate::text::join3;
use crate::text::views;
use crate::text::str_le;
use crate::text::text_le;
use crate::text::lemma_text_le_reflexive;
use crate::text::lemma_text_le_total;
use crate::text::lemma_text_le_transitive;

verus! {

/// How one pass over the screen ended.
#[derive(Debug, Clone, Copy, PartialEq, Eq, Structural)]
pub enum ControlFlow {
    Stop,
    Edit,
    Selected,
    Reload,
}

/// The selection model. `server_table_state` and `username_list_state` are
/// the cursors that the two panels highlight.
#[derive(Debug)]
pub struct State {
    pub server_offset: usize,
    pub username_offset: usize,
    pub choosing_server: bool,
    pub choosing_username: bool,
    pub selected_server: bool,
    pub server_list: Vec<ConfigServer>,
    pub server_table_state: Option<usize>,
    pub username_list_state: Option<usize>,
    pub working_keys: WorkingKeys,
}

/// The selection model as plain mathematical values.
pub struct StateView {
    pub server_offset: usize,
    pub username_offset: usize,
    pub choosing_server: bool,
    pub choosing_username: bool,
    pub selected_server: bool,
    pub server_list: Seq<ServerView>,
    pub server_table_state: Option<usize>,
    pub username_list_state: Option<usize>,
    pub working_keys: WorkingKeys,
}

impl View for State {
    type V = StateView;

    open spec fn view(&self) -> StateView {
        StateView {
            server_offset: self.server_offset,
            username_offset: self.username_offset,
            choosing_server: self.choosing_server,
            choosing_username: self.choosing_username,
            selected_server: self.selected_server,
            server_list: server_views(self.server_list@),
            server_table_state: self.server_table_state,
            username_list_state: self.username_list_state,
            working_keys: self.working_keys,
        }
    }
}

/// The cursor after one step forward over `len` items: the first item from
/// an unset cursor or from the last item, else the following one.
pub open spec fn next_offset(selected: Option<usize>, len: nat) -> usize {
    match selected {
        Some(offset) => if offset + 1 >= len {
            0
        } else {
            (offset + 1) as usize
        },
        None => 0,
    }
}

/// The cursor after one step backward over `len` items: the last item from
/// the first one, the first item from an unset cursor, else the one before.
pub open spec fn previous_offset(selected: Option<usize>, len: nat) -> usize {
    match selected {
        Some(offset) => if offset == 0 {
            (len - 1) as usize
        } else {
            (offset - 1) as usize
        },
        None => 0,
    }
}

/// The names of `list` never decrease from one entry to the next.
pub open spec fn sorted_by_name(list: Seq<ServerView>) -> bool {
    forall|i: int, j: int|
        0 <= i <= j < list.len() ==> text_le((#[trigger] list[i]).name, (#[trigger] list[j]).name)
}

impl StateView {
    /// The identities of the highlighted target.
    pub open spec fn usernames(self) -> Seq<Seq<char>>
        recommends
            self.server_offset < self.server_list.len(),
    {
        self.server_list[self.server_offset as int].username_list
    }

    /// The invariant of the model: cursors lie inside their lists, exactly
    /// one panel has focus, the identity panel only over a non-empty target
    /// list, and navigation is enabled exactly when there are targets.
    pub open spec fn wf(self) -> bool {
        &&& all_have_identity(self.server_list)
        &&& self.server_list.len() <= usize::MAX
        &&& !self.selected_server
        &&& self.choosing_username ==> !self.choosing_server
        &&& self.server_list.len() == 0 ==> {
            &&& self.server_table_state is None
            &&& !self.choosing_username
            &&& self.working_keys == WorkingKeys::control_only()
        }
        &&& self.server_list.len() > 0 ==> {
            &&& self.server_table_state == Some(self.server_offset)
            &&& self.server_offset < self.server_list.len()
            &&& self.working_keys == WorkingKeys::all()
            &&& self.choosing_server == !self.choosing_username
        }
        &&& self.choosing_username == (self.username_list_state is Some)
        &&& self.choosing_username ==> {
            &&& self.username_list_state == Some(self.username_offset)
            &&& self.username_offset < self.usernames().len()
        }
    }

    /// The model after the target cursor moved forward, wrapping; unchanged
    /// when there is no target.
    pub open spec fn next_server(self) -> StateView {
        if self.server_list.len() == 0 {
            self
        } else {
            let offset = next_offset(self.server_table_state, self.server_list.len());
            StateView { server_offset: offset, server_table_state: Some(offset), ..self }
        }
    }

    /// The model after the target cursor moved backward, wrapping; unchanged
    /// when there is no target.
    pub open spec fn previous_server(self) -> StateView {
        if self.server_list.len() == 0 {
            self
        } else {
            let offset = previous_offset(self.server_table_state, self.server_list.len());
            StateView { server_offset: offset, server_table_state: Some(offset), ..self }
        }
    }

    /// The model after the identity cursor moved forward, wrapping over the
    /// identities of the highlighted target.
    pub open spec fn next_username(self) -> StateView {
        let offset = next_offset(self.username_list_state, self.usernames().len());
        StateView { username_offset: offset, username_list_state: Some(offset), ..self }
    }

    /// The model after the identity cursor moved backward, wrapping over the
    /// identities of the highlighted target.
    pub open spec fn previous_username(self) -> StateView {
        let offset = previous_offset(self.username_list_state, self.usernames().len());
        StateView { username_offset: offset, username_list_state: Some(offset), ..self }
    }

    /// The model with the focus on the identity panel; the first identity is
    /// highlighted if none was.
    pub open spec fn enter_identity_panel(self) -> StateView {
        let focused = StateView { choosing_username: true, choosing_server: false, ..self };
        if self.username_list_state is None {
            focused.next_username()
        } else {
            focused
        }
    }

    /// The model with the focus on the target panel and no identity
    /// highlighted.
    pub open spec fn leave_identity_panel(self) -> StateView {
        StateView {
            choosing_username: false,
            username_list_state: None,
            choosing_server: true,
            ..self
        }
    }

    /// The model after `action`. Only the four moves change it.
    pub open spec fn after_action(self, action: KeyAction) -> StateView {
        match action {
            KeyAction::MoveUp => if self.choosing_username {
                self.previous_username()
            } else {
                self.previous_server()
            },
            KeyAction::MoveDown => if self.choosing_username {
                self.next_username()
            } else {
                self.next_server()
            },
            KeyAction::MoveLeft => self.leave_identity_panel(),
            KeyAction::MoveRight => self.enter_identity_panel(),
            _ => self,
        }
    }

    /// The action that `key` resolves to in this model.
    pub open spec fn action_of(self, key: Key, overlay: bool) -> KeyAction {
        resolved(key, self.choosing_username, overlay, self.working_keys)
    }

    /// The model after `count` forward moves of the target cursor.
    pub open spec fn next_server_times(self, count: nat) -> StateView
        decreases count,
    {
        if count == 0 {
            self
        } else {
            self.next_server_times((count - 1) as nat).next_server()
        }
    }

    /// The model after `count` forward moves of the identity cursor.
    pub open spec fn next_username_times(self, count: nat) -> StateView
        decreases count,
    {
        if count == 0 {
            self
        } else {
            self.next_username_times((count - 1) as nat).next_username()
        }
    }
}

/// The way a pass over the screen ends on `action`, if it ends.
pub open spec fn control_flow_of(action: KeyAction) -> Option<ControlFlow> {
    match action {
        KeyAction::Quit => Some(ControlFlow::Stop),
        KeyAction::Edit => Some(ControlFlow::Edit),
        KeyAction::Reload => Some(ControlFlow::Reload),
        KeyAction::Confirm => Some(ControlFlow::Selected),
        _ => None,
    }
}

/// One wrapping step forward from `(start + count) % len` lands on
/// `(start + count + 1) % len`.
proof fn lemma_wrapping_step(start: int, count: int, len: int)
    requires
        len > 0,
        0 <= start,
        0 <= count,
    ensures
        0 <= (start + count) % len < len,
        (if (start + count) % len + 1 >= len {
            0
        } else {
            (start + count) % len + 1
        }) == (start + count + 1) % len,
{
    let x = start + count;
    let q = x / len;
    let r = x % len;
    lemma_fundamental_div_mod(x, len);
    assert(0 <= r < len) by (nonlinear_arith)
        requires
            r == x % len,
            len > 0,
    ;
    if r + 1 >= len {
        assert(x + 1 == (q + 1) * len + 0) by (nonlinear_arith)
            requires
                x == len * q + r,
                r + 1 == len,
        ;
        lemma_fundamental_div_mod_converse(x + 1, len, q + 1, 0);
    } else {
        assert(x + 1 == q * len + (r + 1)) by (nonlinear_arith)
            requires
                x == len * q + r,
        ;
        lemma_fundamental_div_mod_converse(x + 1, len, q, r + 1);
    }
}

/// A full turn of `len` wrapping steps comes back to where it started.
proof fn lemma_full_turn(start: int, len: int)
    requires
        0 <= start < len,
    ensures
        (start + len) % len == start,
{
    assert(start + len == 1 * len + start) by (nonlinear_arith);
    lemma_fundamental_div_mod_converse(start + len, len, 1, start);
}

/// After `count` forward moves the target cursor stands `count` places
/// further, counted around the list, and nothing else has changed.
pub proof fn lemma_next_server_times(state: StateView, count: nat)
    requires
        state.server_list.len() > 0,
        state.server_table_state == Some(state.server_offset),
        state.server_offset < state.server_list.len(),
        state.server_list.len() <= usize::MAX,
    ensures
        state.next_server_times(count) == (StateView {
            server_offset: ((state.server_offset + count) % (state.server_list.len() as int)) as usize,
            server_table_state: Some(
                ((state.server_offset + count) % (state.server_list.len() as int)) as usize,
            ),
            ..state
        }),
    decreases count,
{
    let len = state.server_list.len() as int;
    if count == 0 {
        assert((state.server_offset + 0) % len == state.server_offset as int) by {
            lemma_fundamental_div_mod_converse(state.server_offset as int, len, 0, state.server_offset as int);
        }
    } else {
        lemma_next_server_times(state, (count - 1) as nat);
        lemma_wrapping_step(state.server_offset as int, count - 1, len);
    }
}

/// Circular navigation of targets: moving forward as many times as there
/// are targets brings the model back to where it was.
pub proof fn lemma_next_server_full_circle(state: StateView)
    requires
        state.wf(),
        state.server_list.len() > 0,
    ensures
        state.next_server_times(state.server_list.len()) == state,
        state.next_server_times(state.server_list.len()).server_offset == state.server_offset,
{
    lemma_next_server_times(state, state.server_list.len());
    lemma_full_turn(state.server_offset as int, state.server_list.len() as int);
}

/// After `count` forward moves the identity cursor stands `count` places
/// further, counted around the identities of the highlighted target, and
/// nothing else has changed.
pub proof fn lemma_next_username_times(state: StateView, count: nat)
    requires
        state.server_offset < state.server_list.len(),
        state.username_list_state == Some(state.username_offset),
        state.username_offset < state.usernames().len(),
        state.usernames().len() <= usize::MAX,
    ensures
        state.next_username_times(count) == (StateView {
            username_offset: ((state.username_offset + count) % (state.usernames().len() as int)) as usize,
            username_list_state: Some(
                ((state.username_offset + count) % (state.usernames().len() as int)) as usize,
            ),
            ..state
        }),
    decreases count,
{
    let len = state.usernames().len() as int;
    if count == 0 {
        assert((state.username_offset + 0) % len == state.username_offset as int) by {
            lemma_fundamental_div_mod_converse(
                state.username_offset as int,
                len,
                0,
                state.username_offset as int,
            );
        }
    } else {
        lemma_next_username_times(state, (count - 1) as nat);
        lemma_wrapping_step(state.username_offset as int, count - 1, len);
    }
}

/// Circular navigation of identities: whichever target is highlighted,
/// moving forward as many times as that target has identities brings the
/// identity cursor back to where it was, and leaves the target cursor alone.
pub proof fn lemma_next_username_full_circle(state: StateView)
    requires
        state.server_offset < state.server_list.len(),
        state.username_list_state == Some(state.username_offset),
        state.username_offset < state.usernames().len(),
        state.usernames().len() <= usize::MAX,
    ensures
        state.next_username_times(state.usernames().len()) == state,
        state.next_username_times(state.usernames().len()).username_offset
            == state.username_offset,
        state.next_username_times(state.usernames().len()).server_offset == state.server_offset,
{
    lemma_next_username_times(state, state.usernames().len());
    lemma_full_turn(state.username_offset as int, state.usernames().len() as int);
}

/// Moving the target cursor forward and then backward, or backward and then
/// forward, leaves the model as it was.
pub proof fn lemma_server_moves_undo_each_other(state: StateView)
    requires
        state.wf(),
    ensures
        state.next_server().previous_server() == state,
        state.previous_server().next_server() == state,
{
}

/// Moving the identity cursor forward and then backward, or backward and
/// then forward, leaves the model as it was.
pub proof fn lemma_username_moves_undo_each_other(state: StateView)
    requires
        state.wf(),
        state.choosing_username,
        state.usernames().len() <= usize::MAX,
    ensures
        state.next_username().previous_username() == state,
        state.previous_username().next_username() == state,
{
}

/// Entering the identity panel and leaving it again keeps the target cursor
/// and ends with the focus on the target panel and no identity highlighted.
pub proof fn lemma_enter_then_leave(state: StateView)
    ensures
        state.enter_identity_panel().leave_identity_panel().server_offset == state.server_offset,
        state.enter_identity_panel().leave_identity_panel().server_table_state
            == state.server_table_state,
        state.enter_identity_panel().leave_identity_panel().server_list == state.server_list,
        !state.enter_identity_panel().leave_identity_panel().choosing_username,
        state.enter_identity_panel().leave_identity_panel().choosing_server,
        state.enter_identity_panel().leave_identity_panel().username_list_state is None,
        state.wf() && state.server_list.len() > 0
            ==> state.enter_identity_panel().leave_identity_panel().wf(),
        state.enter_identity_panel().leave_identity_panel().leave_identity_panel()
            == state.enter_identity_panel().leave_identity_panel(),
{
}

/// With no target, no navigation or confirm binding is enabled, and every
/// navigation or confirm key resolves to `Ignored` and leaves the model as
/// it is.
pub proof fn lemma_empty_model_ignores_navigation(state: StateView, key: Key, overlay: bool)
    requires
        state.wf(),
        state.server_list.len() == 0,
        key is Up || key is Down || key is Left || key is Right || key is Backspace || key is Enter,
    ensures
        !state.working_keys.up,
        !state.working_keys.down,
        !state.working_keys.left,
        !state.working_keys.right,
        !state.working_keys.enter,
        state.action_of(key, overlay) == KeyAction::Ignored,
        state.after_action(state.action_of(key, overlay)) == state,
        control_flow_of(state.action_of(key, overlay)) is None,
{
}

/// Each move keeps the invariant of the model where the move has a place:
/// the target cursor moves while the target panel has the focus, the
/// identity cursor while the identity panel has it, and the focus changes
/// only over a list with targets.
pub proof fn lemma_moves_keep_wf(state: StateView)
    requires
        state.wf(),
    ensures
        !state.choosing_username ==> state.next_server().wf() && state.previous_server().wf(),
        state.choosing_username && state.usernames().len() <= usize::MAX
            ==> state.next_username().wf() && state.previous_username().wf(),
        state.server_list.len() > 0 ==> state.enter_identity_panel().wf()
            && state.leave_identity_panel().wf(),
{
    if state.server_list.len() > 0 {
        assert(state.server_list[state.server_offset as int].username_list.len() > 0);
        let next = state.next_server();
        let previous = state.previous_server();
        assert(next.server_list[next.server_offset as int].username_list.len() > 0);
        assert(previous.server_list[previous.server_offset as int].username_list.len() > 0);
    }
}

/// In a well-formed model a key resolves only to an action whose binding is
/// enabled.
pub proof fn lemma_action_is_enabled(state: StateView, key: Key, overlay: bool)
    requires
        state.wf(),
    ensures
        state.working_keys.enables(state.action_of(key, overlay)),
{
}

/// Every action keeps the invariant of the model.
pub proof fn lemma_action_keeps_wf(state: StateView, key: Key, overlay: bool)
    requires
        state.wf(),
    ensures
        state.after_action(state.action_of(key, overlay)).wf(),
{
    let action = state.action_of(key, overlay);
    let after = state.after_action(action);
    if state.server_list.len() > 0 {
        assert(state.server_list[state.server_offset as int].username_list.len() > 0);
        assert(after.server_list == state.server_list);
        assert(after.server_list[after.server_offset as int].username_list.len() > 0);
    }
}

/// Where `server` goes into `sorted` so that the names stay in order: before
/// the first entry whose name is not below its own.
fn insertion_point(sorted: &Vec<ConfigServer>, server: &ConfigServer) -> (at: usize)
    requires
        sorted_by_name(server_views(sorted@)),
    ensures
        at <= sorted@.len(),
        forall|i: int| 0 <= i < at ==> text_le((#[trigger] sorted@[i])@.name, server@.name),
        forall|i: int|
            at <= i < sorted@.len() ==> text_le(server@.name, (#[trigger] sorted@[i])@.name),
{
    let mut at: usize = 0;
    while at < sorted.len()
        invariant
            at <= sorted@.len(),
            sorted_by_name(server_views(sorted@)),
            forall|i: int| 0 <= i < at ==> text_le((#[trigger] sorted@[i])@.name, server@.name),
        decreases sorted.len() - at,
    {
        if str_le(server.name.as_str(), sorted[at].name.as_str()) {
            assert forall|i: int| at <= i < sorted@.len() implies text_le(
                server@.name,
                (#[trigger] sorted@[i])@.name,
            ) by {
                let views = server_views(sorted@);
                assert(text_le(views[at as int].name, views[i].name));
                lemma_text_le_transitive(
                    server@.name,
                    sorted@[at as int]@.name,
                    sorted@[i]@.name,
                );
            }
            return at;
        }
        proof {
            lemma_text_le_total(server@.name, sorted@[at as int]@.name);
        }
        at += 1;
    }
    at
}

/// Orders targets by name. The result holds the same targets, each as often
/// as the input does.
pub fn sort_by_name(servers: Vec<ConfigServer>) -> (sorted: Vec<ConfigServer>)
    ensures
        sorted_by_name(server_views(sorted@)),
        server_views(sorted@).to_multiset() == server_views(servers@).to_multiset(),
        sorted@.len() == servers@.len(),
{
    let ghost given = server_views(servers@);
    let mut rest = servers;
    let mut sorted: Vec<ConfigServer> = Vec::new();
    proof {
        assert(server_views(sorted@) =~= Seq::<ServerView>::empty());
        broadcast use vstd::seq_lib::to_multiset_len;

        assert(server_views(sorted@).to_multiset() =~= vstd::multiset::Multiset::<ServerView>::empty())
            by {
            assert(server_views(sorted@).to_multiset().len() == 0);
        }
        assert(server_views(sorted@).to_multiset().add(server_views(rest@).to_multiset())
            =~= given.to_multiset());
    }
    while rest.len() > 0
        invariant
            sorted_by_name(server_views(sorted@)),
            server_views(sorted@).to_multiset().add(server_views(rest@).to_multiset())
                == given.to_multiset(),
            sorted@.len() + rest@.len() == given.len(),
        decreases rest.len(),
    {
        let ghost rest_before = server_views(rest@);
        let ghost sorted_before = server_views(sorted@);
        let server = rest.pop().unwrap();
        let at = insertion_point(&sorted, &server);
        let ghost item = server@;
        sorted.insert(at, server);
        proof {
            assert(server_views(rest@) =~= rest_before.drop_last());
            assert(rest_before =~= server_views(rest@).push(item));
            vstd::seq_lib::to_multiset_build(server_views(rest@), item);
            assert(server_views(sorted@) =~= sorted_before.insert(at as int, item));
            vstd::seq_lib::to_multiset_insert(sorted_before, at as int, item);
            assert(server_views(sorted@).to_multiset().add(server_views(rest@).to_multiset())
                =~= given.to_multiset());
            let now = server_views(sorted@);
            assert forall|i: int, j: int| 0 <= i <= j < now.len() implies text_le(
                (#[trigger] now[i]).name,
                (#[trigger] now[j]).name,
            ) by {
                lemma_text_le_reflexive(item.name);
                let before_i = if i < at { i } else { i - 1 };
                let before_j = if j < at { j } else { j - 1 };
                if i != at && j != at {
                    assert(text_le(sorted_before[before_i].name, sorted_before[before_j].name));
                }
            }
        }
    }
    proof {
        assert(server_views(rest@) =~= Seq::<ServerView>::empty());
        broadcast use vstd::seq_lib::to_multiset_len;

        assert(server_views(rest@).to_multiset().len() == 0);
        assert(server_views(sorted@).to_multiset() =~= given.to_multiset());
    }
    sorted
}

impl State {
    /// Builds the model for a list of targets: orders them by name and, if
    /// there is any, highlights the first one, gives the target panel the
    /// focus and enables navigation. With no target only quit, edit and
    /// reload are enabled.
    pub fn build(servers: Vec<ConfigServer>) -> (state: State)
        ensures
            sorted_by_name(state@.server_list),
            state@.server_list.to_multiset() == server_views(servers@).to_multiset(),
            state@.server_list.len() == servers@.len(),
            state@.server_offset == 0,
            state@.username_offset == 0,
            !state@.choosing_username,
            !state@.selected_server,
            state@.username_list_state is None,
            state@.choosing_server == (servers@.len() > 0),
            state@.server_table_state == (if servers@.len() > 0 {
                Some(0usize)
            } else {
                None
            }),
            state@.working_keys == (if servers@.len() > 0 {
                WorkingKeys::all()
            } else {
                WorkingKeys::control_only()
            }),
            all_have_identity(server_views(servers@)) ==> state@.wf(),
    {
        let ghost given = server_views(servers@);
        let server_list = sort_by_name(servers);
        let mut state = State {
            server_offset: 0,
            username_offset: 0,
            choosing_server: false,
            choosing_username: false,
            selected_server: false,
            server_list,
            server_table_state: None,
            username_list_state: None,
            working_keys: WorkingKeys::new_control_only(),
        };
        if state.server_list.len() > 0 {
            state.working_keys = WorkingKeys::new_all();
            state.choosing_server = true;
            state.next_server();
        }
        proof {
            if all_have_identity(given) {
                let list = state@.server_list;
                assert forall|i: int| 0 <= i < list.len() implies (#[trigger] list[i]).username_list.len()
                    > 0 by {
                    broadcast use vstd::seq_lib::to_multiset_contains;

                    assert(list.contains(list[i]));
                    assert(list.to_multiset().count(list[i]) > 0);
                    assert(given.to_multiset().count(list[i]) > 0);
                    assert(given.contains(list[i]));
                    let k = choose|k: int| 0 <= k < given.len() && given[k] == list[i];
                    assert(given[k].username_list.len() > 0);
                }
            }
        }
        state
    }

    /// Tells whether the model meets its invariant.
    pub fn is_well_formed(&self) -> (ok: bool)
        ensures
            ok == self@.wf(),
    {
        if !all_identified(&self.server_list) || self.selected_server {
            return false;
        }
        if self.choosing_username && self.choosing_server {
            return false;
        }
        if self.server_list.len() == 0 {
            if self.server_table_state.is_some() || self.choosing_username
                || self.working_keys != WorkingKeys::new_control_only() {
                return false;
            }
        } else {
            if self.server_table_state != Some(self.server_offset)
                || self.server_offset >= self.server_list.len()
                || self.working_keys != WorkingKeys::new_all()
                || self.choosing_server == self.choosing_username {
                return false;
            }
        }
        if self.choosing_username != self.username_list_state.is_some() {
            return false;
        }
        if self.choosing_username {
            let count = self.server_list[self.server_offset].username_list.len();
            assert(count == self@.usernames().len());
            if self.username_list_state != Some(self.username_offset) || self.username_offset
                >= count {
                return false;
            }
        }
        true
    }

    /// Moves the target cursor forward, wrapping from the last target to the
    /// first. Does nothing when there is no target.
    pub fn next_server(&mut self)
        ensures
            final(self)@ == old(self)@.next_server(),
    {
        if self.server_list.len() == 0 {
            return ;
        }
        let offset: usize = match self.server_table_state {
            Some(offset) => {
                if offset >= self.server_list.len() - 1 {
                    0
                } else {
                    offset + 1
                }
            },
            None => 0,
        };
        self.server_offset = offset;
        self.server_table_state = Some(offset);
    }

    /// Moves the target cursor backward, wrapping from the first target to
    /// the last. Does nothing when there is no target.
    pub fn previous_server(&mut self)
        ensures
            final(self)@ == old(self)@.previous_server(),
    {
        if self.server_list.len() == 0 {
            return ;
        }
        let offset: usize = match self.server_table_state {
            Some(offset) => {
                if offset == 0 {
                    self.server_list.len() - 1
                } else {
                    offset - 1
                }
            },
            None => 0,
        };
        self.server_offset = offset;
        self.server_table_state = Some(offset);
    }

    /// Moves the identity cursor forward over the identities of the
    /// highlighted target, wrapping from the last to the first.
    pub fn next_username(&mut self)
        requires
            old(self)@.server_offset < old(self)@.server_list.len(),
            old(self)@.usernames().len() > 0,
        ensures
            final(self)@ == old(self)@.next_username(),
    {
        let count = self.server_list[self.server_offset].username_list.len();
        assert(count == self@.usernames().len());
        let offset: usize = match self.username_list_state {
            Some(offset) => {
                if offset >= count - 1 {
                    0
                } else {
                    offset + 1
                }
            },
            None => 0,
        };
        self.username_offset = offset;
        self.username_list_state = Some(offset);
    }

    /// Moves the identity cursor backward over the identities of the
    /// highlighted target, wrapping from the first to the last.
    pub fn previous_username(&mut self)
        requires
            old(self)@.server_offset < old(self)@.server_list.len(),
            old(self)@.usernames().len() > 0,
        ensures
            final(self)@ == old(self)@.previous_username(),
    {
        let count = self.server_list[self.server_offset].username_list.len();
        assert(count == self@.usernames().len());
        let offset: usize = match self.username_list_state {
            Some(offset) => {
                if offset == 0 {
                    count - 1
                } else {
                    offset - 1
                }
            },
            None => 0,
        };
        self.username_offset = offset;
        self.username_list_state = Some(offset);
    }

    /// Gives the identity panel the focus and highlights the first identity
    /// if none is highlighted yet.
    pub fn enter_identity_panel(&mut self)
        requires
            old(self)@.server_offset < old(self)@.server_list.len(),
            old(self)@.usernames().len() > 0,
        ensures
            final(self)@ == old(self)@.enter_identity_panel(),
    {
        self.choosing_username = true;
        self.choosing_server = false;
        if self.username_list_state.is_none() {
            self.next_username();
        }
    }

    /// Gives the target panel the focus and clears the identity cursor.
    pub fn leave_identity_panel(&mut self)
        ensures
            final(self)@ == old(self)@.leave_identity_panel(),
    {
        self.choosing_username = false;
        self.username_list_state = None;
        self.choosing_server = true;
    }

    /// Reacts to one key press: resolves it, applies a move to the model,
    /// and reports how the pass over the screen ends if the key ends it.
    pub fn handle_key(&mut self, key: Key, overlay: bool) -> (flow: Option<ControlFlow>)
        requires
            old(self)@.wf(),
        ensures
            final(self)@ == old(self)@.after_action(old(self)@.action_of(key, overlay)),
            flow == control_flow_of(old(self)@.action_of(key, overlay)),
            final(self)@.wf(),
    {
        proof {
            lemma_action_keeps_wf(self@, key, overlay);
            if self@.server_list.len() > 0 {
                assert(self@.server_list[self@.server_offset as int].username_list.len() > 0);
            }
        }
        let action = resolve(key, self.choosing_username, overlay, &self.working_keys);
        match action {
            KeyAction::Quit => Some(ControlFlow::Stop),
            KeyAction::Edit => Some(ControlFlow::Edit),
            KeyAction::Reload => Some(ControlFlow::Reload),
            KeyAction::Confirm => Some(ControlFlow::Selected),
            KeyAction::MoveUp => {
                if self.choosing_username {
                    self.previous_username();
                } else {
                    self.previous_server();
                }
                None
            },
            KeyAction::MoveDown => {
                if self.choosing_username {
                    self.next_username();
                } else {
                    self.next_server();
                }
                None
            },
            KeyAction::MoveLeft => {
                self.leave_identity_panel();
                None
            },
            KeyAction::MoveRight => {
                self.enter_identity_panel();
                None
            },
            KeyAction::Ignored => None,
        }
    }

    /// The confirmed choice: the highlighted target and identity.
    pub fn chosen(&self) -> (choice: (ConfigServer, String))
        requires
            self@.wf(),
            self@.choosing_username,
        ensures
            choice.0@ == self@.server_list[self@.server_offset as int],
            choice.1@ == self@.usernames()[self@.username_offset as int],
    {
        let server = self.server_list[self.server_offset].clone();
        let username = self.server_list[self.server_offset].username_list[self.username_offset].clone();
        (server, username)
    }
}

/// What the script is started with: the command, its arguments and the
/// environment variables added for it.
#[derive(Debug)]
pub struct ScriptCall {
    pub command: String,
    pub argument_list: Vec<String>,
    pub env_list: Vec<(&'static str, String)>,
}

/// The address of a login: the identity, an at sign, the host.
pub open spec fn address_text(username: Seq<char>, hostname: Seq<char>) -> Seq<char> {
    username + "@"@ + hostname
}

/// The script's arguments for a choice, in their fixed order: address,
/// identity, host, port, and `1` or `0` for verbose mode.
pub open spec fn script_arguments(server: ServerView, username: Seq<char>, verbose: bool) -> Seq<
    Seq<char>,
> {
    seq![
        address_text(username, server.hostname),
        username,
        server.hostname,
        decimal(server.port as nat),
        if verbose {
            "1"@
        } else {
            "0"@
        },
    ]
}

/// The environment for a choice: address, identity, host and port, and the
/// debug mark only in verbose mode.
pub open spec fn script_environment(server: ServerView, username: Seq<char>, verbose: bool) -> Seq<
    (Seq<char>, Seq<char>),
> {
    let always = seq![
        ("ADDRESS"@, address_text(username, server.hostname)),
        ("USERNAME"@, username),
        ("HOSTNAME"@, server.hostname),
        ("PORT"@, decimal(server.port as nat)),
    ];
    if verbose {
        always.push(("DEBUG"@, "1"@))
    } else {
        always
    }
}

/// The views of a list of environment variables.
pub open spec fn environment_views(list: Seq<(&'static str, String)>) -> Seq<
    (Seq<char>, Seq<char>),
> {
    Seq::new(list.len(), |i: int| (list[i].0@, list[i].1@))
}

/// Composes the call of the script for the chosen target and identity.
pub fn run_script(settings: &Settings, server: &ConfigServer, username: &String) -> (call:
    ScriptCall)
    ensures
        call.command@ == settings.script_file@,
        views(call.argument_list@) == script_arguments(server@, username@, settings.verbose),
        environment_views(call.env_list@) == script_environment(
            server@,
            username@,
            settings.verbose,
        ),
{
    let address = join3(username.as_str(), "@", server.hostname.as_str());
    let port = decimal_text(server.port);
    let mut argument_list: Vec<String> = Vec::new();
    argument_list.push(address.clone());
    argument_list.push(username.clone());
    argument_list.push(server.hostname.clone());
    argument_list.push(port.clone());
    let mut env_list: Vec<(&'static str, String)> = Vec::new();
    env_list.push(("ADDRESS", address));
    env_list.push(("USERNAME", username.clone()));
    env_list.push(("HOSTNAME", server.hostname.clone()));
    env_list.push(("PORT", port));
    if settings.verbose {
        argument_list.push(String::from_str("1"));
        env_list.push(("DEBUG", String::from_str("1")));
    } else {
        argument_list.push(String::from_str("0"));
    }
    assert(views(argument_list@) =~= script_arguments(server@, username@, settings.verbose));
    assert(environment_views(env_list@) =~= script_environment(
        server@,
        username@,
        settings.verbose,
    ));
    ScriptCall { command: settings.script_file.clone(), argument_list, env_list }
}

/// What is printed in place of running the script.
pub open spec fn choice_text(server: ServerView, username: Seq<char>) -> Seq<char> {
    "You have selected `"@ + server.name + "` ("@ + username + "@"@ + server.hostname
        + "). Skip running script file."@
}

/// Words the choice for the user when the script is not to be run.
pub fn choice_message(server: &ConfigServer, username: &String) -> (text: String)
    ensures
        text@ == choice_text(server@, username@),
{
    join3("You have selected `", server.name.as_str(), "` (").concat(username.as_str()).concat(
        "@",
    ).concat(server.hostname.as_str()).concat("). Skip running script file.")
}

} // verus!

//! The process-global installation: at most one set of callbacks is installed at a time, and
//! whoever holds the guard may take it out again.

use crate::error::Error;
use crate::logical_type::LogicalType;
use crate::schema::{acceptable, plan_schema, refused, SchemaPlan};
use vstd::prelude::*;

verus! {

/// Where the process stands with the engine's routing hooks. `S` owns the callbacks.
#[derive(Debug, PartialEq, Eq)]
pub enum Registry<S> {
    /// Nothing is installed.
    Vacant,
    /// An installation has been taken on, and the engine has not answered yet.
    Reserved,
    /// The engine calls into the callbacks that the state owns.
    Active(S),
}

/// Process-global routing installation. It comes from a registry's `settle`, which ends an
/// installation, and belongs to that registry. It is live until it has been given up, by
/// `uninstall` or by `drop`.
#[derive(Debug)]
pub struct RoutingGuard {
    live: bool,
}

/// How an installation ends.
pub enum InstallEnd {
    /// The caller gets the guard.
    Granted,
    /// Another installation stands.
    AlreadyInstalled,
    /// The engine did not take the hooks.
    EngineRejected,
}

/// The refusal that an installation ends with, if it is refused.
pub open spec fn install_refusal(end: InstallEnd) -> Option<Seq<char>> {
    match end {
        InstallEnd::Granted => None,
        InstallEnd::AlreadyInstalled => Some("partition routing hooks are already installed"@),
        InstallEnd::EngineRejected => Some("engine rejected partition routing installation"@),
    }
}

/// What an installation of `state` does to the registry, and how it ends, if the engine answers
/// `code`. The engine is asked only while the registry is vacant.
pub open spec fn install_step<S>(before: Registry<S>, state: S, code: i32) -> (
    Registry<S>,
    InstallEnd,
) {
    if before !is Vacant {
        (before, InstallEnd::AlreadyInstalled)
    } else if code != 0 {
        (Registry::Vacant, InstallEnd::EngineRejected)
    } else {
        (Registry::Active(state), InstallEnd::Granted)
    }
}

/// What taking the installation out does to the registry.
pub open spec fn uninstall_step<S>(before: Registry<S>) -> Registry<S> {
    Registry::Vacant
}

/// What giving up a guard does: the registry behind it, and whether the engine is told to reset
/// its hooks. A guard that is not live any more does nothing.
pub open spec fn drop_step<S>(live: bool, before: Registry<S>) -> (Registry<S>, bool) {
    if live {
        (uninstall_step(before), true)
    } else {
        (before, false)
    }
}

/// `res` reports that an installation ended with `end`: a granted one with a live guard.
pub open spec fn reports_end(res: Result<RoutingGuard, Error>, end: InstallEnd) -> bool {
    match install_refusal(end) {
        None => res matches Ok(guard) && guard.is_live(),
        Some(text) => res matches Err(e) && e@ == text,
    }
}

/// An installation of `state` takes the registry from `before` to `next` and ends with `res`: the
/// engine is asked about `state` if nothing is installed.
pub open spec fn installs<S, F: FnOnce(&S) -> i32>(
    before: Registry<S>,
    state: S,
    engine: F,
    next: Registry<S>,
    res: Result<RoutingGuard, Error>,
) -> bool {
    match before {
        Registry::Vacant => exists|code: i32| #[trigger]
            call_ensures(engine, (&state,), code) && next == install_step(before, state, code).0
                && reports_end(res, install_step(before, state, code).1),
        _ => next == before && reports_end(res, InstallEnd::AlreadyInstalled),
    }
}

/// A registration of the columns of a parent table ends with `res`: the engine is asked about a
/// plan that describes them, unless they are refused.
pub open spec fn registers<F: FnOnce(u64, &SchemaPlan) -> i32>(
    parent_table_id: u64,
    columns: Seq<(String, LogicalType)>,
    engine: F,
    res: Result<(), Error>,
) -> bool {
    if acceptable(columns) {
        exists|plan: SchemaPlan, code: i32|
            plan.describes(columns) && #[trigger] call_ensures(
                engine,
                (parent_table_id, &plan),
                code,
            ) && schema_settled(code, res)
    } else {
        res matches Err(e) && refused(columns, e@)
    }
}

impl<S> Registry<S> {
    /// A registry with nothing installed.
    pub fn new() -> (res: Self)
        ensures
            res == Registry::<S>::Vacant,
    {
        Registry::Vacant
    }

    /// The state that owns the installed callbacks.
    pub fn state(&self) -> (res: Option<&S>)
        ensures
            match *self {
                Registry::Active(state) => res == Some(&state),
                _ => res is None,
            },
    {
        match self {
            Registry::Active(state) => Some(state),
            _ => None,
        }
    }

    /// Takes on an installation, unless one stands already.
    pub fn reserve(&mut self) -> (res: Result<(), Error>)
        ensures
            match *old(self) {
                Registry::Vacant => res is Ok && *final(self) == Registry::<S>::Reserved,
                _ => (res matches Err(e) && e@ == "partition routing hooks are already installed"@)
                    && *final(self) == *old(self),
            },
    {
        match self {
            Registry::Vacant => {
                *self = Registry::Reserved;
                Ok(())
            },
            _ => Err(
                Error::FailedQuery("partition routing hooks are already installed".to_owned()),
            ),
        }
    }

    /// Ends a reserved installation with the engine's answer: zero makes `state` the installed
    /// one, anything else leaves nothing installed.
    pub fn settle(&mut self, state: S, code: i32) -> (res: Result<RoutingGuard, Error>)
        requires
            *old(self) is Reserved,
        ensures
            *final(self) == install_step(Registry::Vacant, state, code).0,
            reports_end(res, install_step(Registry::Vacant, state, code).1),
    {
        if code != 0 {
            *self = Registry::Vacant;
            return Err(
                Error::FailedQuery("engine rejected partition routing installation".to_owned()),
            );
        }
        *self = Registry::Active(state);
        Ok(RoutingGuard { live: true })
    }
}

impl RoutingGuard {
    /// The guard has not been given up.
    pub closed spec fn is_live(self) -> bool {
        self.live
    }

    /// Installs process-global routing hooks. Must be called before any database is opened;
    /// installing twice without `uninstall` is an error.
    ///
    /// `engine` hands the hooks to the engine and returns its status code. It is called at most
    /// once, and not at all while another installation stands.
    pub fn install<S, F: FnOnce(&S) -> i32>(
        registry: &mut Registry<S>,
        state: S,
        engine: F,
    ) -> (res: Result<RoutingGuard, Error>)
        requires
            *old(registry) is Vacant ==> call_requires(engine, (&state,)),
        ensures
            installs(*old(registry), state, engine, *final(registry), res),
            match *old(registry) {
                Registry::Vacant => exists|code: i32| #[trigger]
                    call_ensures(engine, (&state,), code) && *final(registry) == install_step(
                        *old(registry),
                        state,
                        code,
                    ).0 && reports_end(res, install_step(*old(registry), state, code).1),
                _ => *final(registry) == *old(registry) && reports_end(
                    res,
                    InstallEnd::AlreadyInstalled,
                ),
            },
    {
        match registry.reserve() {
            Err(e) => Err(e),
            Ok(_) => {
                let code: i32 = engine(&state);
                registry.settle(state, code)
            },
        }
    }

    /// Registers a parent table's scan schema so that its claimed partitions read back through
    /// the bundled scan. `columns` are the parent's properties in schema order.
    ///
    /// `engine` hands the schema to the engine and returns its status code. It is not called for
    /// columns that are refused.
    pub fn register_parent_schema<F: FnOnce(u64, &SchemaPlan) -> i32>(
        &self,
        parent_table_id: u64,
        columns: Vec<(String, LogicalType)>,
        engine: F,
    ) -> (res: Result<(), Error>)
        requires
            forall|plan: SchemaPlan|
                acceptable(columns@) && plan.describes(columns@) ==> #[trigger] call_requires(
                    engine,
                    (parent_table_id, &plan),
                ),
        ensures
            registers(parent_table_id, columns@, engine, res),
            !acceptable(columns@) ==> (res matches Err(e) && refused(columns@, e@)),
            acceptable(columns@) ==> exists|plan: SchemaPlan, code: i32|
                plan.describes(columns@) && #[trigger] call_ensures(
                    engine,
                    (parent_table_id, &plan),
                    code,
                ) && schema_settled(code, res) && match res {
                    Ok(_) => code == 0,
                    Err(e) => code != 0 && e@ == "engine rejected partition routing schema"@,
                },
    {
        match plan_schema(&columns) {
            Err(e) => Err(e),
            Ok(plan) => {
                let code: i32 = engine(parent_table_id, &plan);
                settle_schema(code)
            },
        }
    }

    /// Returns true while engine hooks are installed, as the engine itself answers: `engine`
    /// asks it, and any answer but zero means yes.
    pub fn is_installed<F: FnOnce() -> u8>(&self, engine: F) -> (res: bool)
        requires
            call_requires(engine, ()),
        ensures
            exists|answer: u8| #[trigger]
                call_ensures(engine, (), answer) && res == means_installed(answer) && res == (answer
                    != 0),
    {
        let answer: u8 = engine();
        answer != 0
    }

    /// Resets engine hooks to null, as dropping the guard does. Every database must have been
    /// dropped before. `registry` must be the one that granted the guard.
    pub fn uninstall<S, F: FnOnce(&Registry<S>)>(self, registry: &mut Registry<S>, engine: F)
        requires
            drop_step(self.is_live(), *old(registry)).1 ==> call_requires(
                engine,
                (&*old(registry),),
            ),
        ensures
            drop_step(self.is_live(), *old(registry)).1 ==> call_ensures(
                engine,
                (&*old(registry),),
                (),
            ),
            *final(registry) == drop_step(self.is_live(), *old(registry)).0,
    {
        let mut guard = self;
        guard.drop(registry, engine);
    }

    /// Gives the guard up: `engine` resets the engine's hooks while the callbacks are still held,
    /// and then nothing is installed any more. On a guard that was given up before, this does
    /// nothing. `registry` must be the one that granted the guard.
    pub fn drop<S, F: FnOnce(&Registry<S>)>(&mut self, registry: &mut Registry<S>, engine: F)
        requires
            drop_step(old(self).is_live(), *old(registry)).1 ==> call_requires(
                engine,
                (&*old(registry),),
            ),
        ensures
            drop_step(old(self).is_live(), *old(registry)).1 ==> call_ensures(
                engine,
                (&*old(registry),),
                (),
            ),
            *final(registry) == drop_step(old(self).is_live(), *old(registry)).0,
            !final(self).is_live(),
    {
        if self.live {
            engine(registry);
            *registry = Registry::Vacant;
            self.live = false;
        }
    }
}

/// `res` is how a schema registration ends that the engine answered with `code`.
pub open spec fn schema_settled(code: i32, res: Result<(), Error>) -> bool {
    match res {
        Ok(_) => code == 0,
        Err(e) => code != 0 && e@ == "engine rejected partition routing schema"@,
    }
}

/// The engine's answer says that its hooks are installed.
pub open spec fn means_installed(answer: u8) -> bool {
    answer != 0
}

/// The end of a schema registration that the engine answered with `code`.
pub fn settle_schema(code: i32) -> (res: Result<(), Error>)
    ensures
        schema_settled(code, res),
        match res {
            Ok(_) => code == 0,
            Err(e) => code != 0 && e@ == "engine rejected partition routing schema"@,
        },
{
    if code != 0 {
        return Err(Error::FailedQuery("engine rejected partition routing schema".to_owned()));
    }
    Ok(())
}

/// One event in the life of a registry.
pub enum Step<S> {
    /// An installation of `state`, which the engine answers with `code` if it is asked.
    Install { state: S, code: i32 },
    /// A guard is given up.
    Uninstall,
}

/// The registry, and the number of guards that are held, after a history that began with
/// nothing installed.
pub open spec fn after<S>(history: Seq<Step<S>>) -> (Registry<S>, int)
    decreases history.len(),
{
    if history.len() == 0 {
        (Registry::Vacant, 0)
    } else {
        let (registry, guards) = after(history.drop_last());
        match history.last() {
            Step::Install { state, code } => {
                let (next, end) = install_step(registry, state, code);
                (next, if end is Granted { guards + 1 } else { guards })
            },
            Step::Uninstall => (uninstall_step(registry), guards - 1),
        }
    }
}

/// Nobody gives up a guard that is not held.
pub open spec fn guards_suffice<S>(history: Seq<Step<S>>) -> bool {
    forall|k: int|
        0 <= k < history.len() && (#[trigger] history[k]) is Uninstall ==> after(
            history.take(k),
        ).1 > 0
}

/// At every point of every history at most one guard is held, and one is held exactly while
/// callbacks are installed.
pub proof fn law_one_guard<S>(history: Seq<Step<S>>)
    requires
        guards_suffice(history),
    ensures
        0 <= after(history).1 <= 1,
        after(history).1 == 1 <==> after(history).0 is Active,
        after(history).0 !is Reserved,
    decreases history.len(),
{
    if history.len() > 0 {
        let earlier = history.drop_last();
        assert forall|k: int|
            0 <= k < earlier.len() && (#[trigger] earlier[k]) is Uninstall implies after(
            earlier.take(k),
        ).1 > 0 by {
            assert(history[k] == earlier[k]);
            assert(history.take(k) == earlier.take(k));
        }
        law_one_guard(earlier);
        assert(history.take(history.len() - 1) == earlier);
        assert(history[history.len() - 1] == history.last());
    }
}

/// While a granted installation stands, installing again is refused and changes nothing,
/// whatever the engine would answer.
pub proof fn law_double_install_refused<S>(
    before: Registry<S>,
    first: S,
    first_code: i32,
    second: S,
    second_code: i32,
)
    requires
        install_step(before, first, first_code).1 is Granted,
    ensures
        install_step(install_step(before, first, first_code).0, second, second_code) == (
            install_step(before, first, first_code).0,
            InstallEnd::AlreadyInstalled,
        ),
{
}

/// Once the installation has been taken out, another one succeeds if the engine takes the hooks.
pub proof fn law_uninstall_reopens<S>(before: Registry<S>, state: S)
    ensures
        install_step(uninstall_step(before), state, 0) == (
            Registry::Active(state),
            InstallEnd::Granted,
        ),
{
}

/// A refused installation leaves the registry as it was, so that a later one can still succeed.
pub proof fn law_refused_install_leaves_no_trace<S>(before: Registry<S>, state: S, code: i32)
    requires
        install_step(before, state, code).1 !is Granted,
    ensures
        install_step(before, state, code).0 == before,
{
}

/// Taking the installation out undoes a granted one: the registry is what it was before.
pub proof fn law_uninstall_undoes_install<S>(before: Registry<S>, state: S, code: i32)
    requires
        install_step(before, state, code).1 is Granted,
    ensures
        uninstall_step(install_step(before, state, code).0) == before,
{
}

/// `uninstall` does what dropping the guard does: when the guard then goes out of scope, the
/// registry stays as it is and the engine is not told a second time.
pub proof fn law_uninstall_is_drop<S>(before: Registry<S>)
    ensures
        drop_step(true, before).1,
        !drop_step(false, drop_step(true, before).0).1,
        drop_step(false, drop_step(true, before).0).0 == drop_step(true, before).0,
{
}

/// What is held at one moment: the state that the engine's hooks point to, the registry, and the
/// state that an installation in progress has in hand.
pub struct Moment<S> {
    pub hooks: Option<S>,
    pub registry: Registry<S>,
    pub in_hand: Option<S>,
}

/// The engine's hooks point to nothing, or to a state that is still held.
pub open spec fn backed<S>(moment: Moment<S>) -> bool {
    moment.hooks matches Some(state) ==> moment.registry == Registry::Active(state)
        || moment.in_hand == Some(state)
}

/// Between two events the engine's hooks point to exactly the state that is installed.
pub open spec fn settled<S>(moment: Moment<S>) -> bool {
    &&& moment.in_hand is None
    &&& match moment.registry {
        Registry::Active(state) => moment.hooks == Some(state),
        _ => moment.hooks is None,
    }
}

/// The moments of one event. An installation is asked of the engine while it has its state in
/// hand, and an engine that answers zero has taken the hooks. A guard that is given up has the
/// hooks reset first, and the state is released afterwards.
pub open spec fn moments_of<S>(before: Moment<S>, step: Step<S>) -> Seq<Moment<S>> {
    let registry = before.registry;
    let hooks = before.hooks;
    match step {
        Step::Install { state, code } => {
            let next = install_step(registry, state, code).0;
            if registry is Vacant {
                let taken = if code == 0 { Some(state) } else { hooks };
                let in_hand = Some(state);
                seq![
                    Moment { hooks, registry: Registry::Reserved, in_hand },
                    Moment { hooks: taken, registry: Registry::Reserved, in_hand },
                    Moment { hooks: taken, registry: next, in_hand: None },
                ]
            } else {
                seq![
                    Moment { hooks, registry, in_hand: Some(state) },
                    Moment { hooks, registry: next, in_hand: None },
                ]
            }
        },
        Step::Uninstall => seq![
            Moment { hooks: None, registry, in_hand: None },
            Moment { hooks: None, registry: drop_step(true, registry).0, in_hand: None },
        ],
    }
}

/// The moments of a history that began with nothing installed.
pub open spec fn moments<S>(history: Seq<Step<S>>) -> Seq<Moment<S>>
    decreases history.len(),
{
    if history.len() == 0 {
        seq![Moment { hooks: None, registry: Registry::Vacant, in_hand: None }]
    } else {
        let earlier = moments(history.drop_last());
        earlier + moments_of(earlier.last(), history.last())
    }
}

/// At no moment of any history do the engine's hooks point to a state that has been released, and
/// between two events they point to exactly the state that is installed.
pub proof fn law_hooks_always_backed<S>(history: Seq<Step<S>>)
    ensures
        moments(history).len() > 0,
        forall|k: int| 0 <= k < moments(history).len() ==> backed(#[trigger] moments(history)[k]),
        settled(moments(history).last()),
        moments(history).last().registry == after(history).0,
    decreases history.len(),
{
    if history.len() > 0 {
        law_hooks_always_backed(history.drop_last());
        let earlier = moments(history.drop_last());
        let next = moments_of(earlier.last(), history.last());
        assert(forall|k: int| 0 <= k < next.len() ==> backed(#[trigger] next[k]));
        assert forall|k: int| 0 <= k < (earlier + next).len() implies backed(
            #[trigger] (earlier + next)[k],
        ) by {
            if k >= earlier.len() {
                assert((earlier + next)[k] == next[k - earlier.len()]);
            }
        }
        assert((earlier + next).last() == next.last());
    }
}

/// While callbacks are installed, no further installation changes what the engine's hooks point
/// to, at any moment of it.
pub proof fn law_standing_hooks_kept<S>(before: Moment<S>, installed: S, state: S, code: i32)
    requires
        settled(before),
        before.registry == Registry::Active(installed),
    ensures
        forall|k: int|
            0 <= k < moments_of(before, Step::Install { state, code }).len() ==> (
            #[trigger] moments_of(before, Step::Install { state, code })[k]).hooks == Some(
                installed,
            ),
{
}

/// An installation is granted exactly if nothing was installed and the engine answered zero, and
/// then the caller's own state is the installed one and its guard is live. Otherwise the error
/// says why, and nothing has changed.
pub proof fn law_install_outcome<S>(
    before: Registry<S>,
    state: S,
    code: i32,
    res: Result<RoutingGuard, Error>,
)
    requires
        reports_end(res, install_step(before, state, code).1),
    ensures
        res is Ok <==> before is Vacant && code == 0,
        res matches Ok(guard) ==> guard.is_live() && install_step(before, state, code).0
            == Registry::Active(state),
        res is Err ==> install_step(before, state, code).0 == before,
        before !is Vacant ==> (res matches Err(e) && e@
            == "partition routing hooks are already installed"@),
        before is Vacant && code != 0 ==> (res matches Err(e) && e@
            == "engine rejected partition routing installation"@),
{
}

/// Each end of an installation has its own result.
pub proof fn law_end_reported(res: Result<RoutingGuard, Error>, end: InstallEnd)
    requires
        reports_end(res, end),
    ensures
        end is Granted ==> (res matches Ok(guard) && guard.is_live()),
        end is AlreadyInstalled ==> (res matches Err(e) && e@
            == "partition routing hooks are already installed"@),
        end is EngineRejected ==> (res matches Err(e) && e@
            == "engine rejected partition routing installation"@),
{
}

/// Giving up a live guard leaves nothing installed and has the engine's hooks reset, whatever was
/// installed. Giving up one that is not live changes nothing and tells the engine nothing.
pub proof fn law_drop_outcome<S>(before: Registry<S>)
    ensures
        drop_step(true, before).0 is Vacant,
        drop_step(true, before).1,
        drop_step(false, before).0 == before,
        !drop_step(false, before).1,
{
}

/// A schema registration succeeds exactly if the engine answers zero. Any other answer is an
/// error, and always the same one.
pub proof fn law_schema_settled_by_zero(code: i32, res: Result<(), Error>)
    requires
        schema_settled(code, res),
    ensures
        res is Ok <==> code == 0,
        res matches Err(e) ==> e@ == "engine rejected partition routing schema"@,
{
}

/// Every answer of the engine but zero means that hooks are installed.
pub proof fn law_any_answer_but_zero_means_installed(answer: u8)
    ensures
        means_installed(answer) <==> answer > 0,
{
}

/// While nothing is installed, an installation asks the engine about the caller's own state and
/// ends as the answer says: with zero that state is installed and the guard is live, with anything
/// else nothing is installed. While anything is, it is refused and changes nothing.
pub proof fn law_install_asks_about_its_state<S, F: FnOnce(&S) -> i32>(
    before: Registry<S>,
    state: S,
    engine: F,
    next: Registry<S>,
    res: Result<RoutingGuard, Error>,
)
    requires
        installs(before, state, engine, next, res),
    ensures
        before is Vacant ==> exists|code: i32| #[trigger]
            call_ensures(engine, (&state,), code) && (res is Ok <==> code == 0),
        res is Ok ==> before is Vacant && next == Registry::Active(state),
        res is Err ==> next == before,
        res matches Ok(guard) ==> guard.is_live(),
        before !is Vacant ==> (res matches Err(e) && e@
            == "partition routing hooks are already installed"@),
        before is Vacant ==> (res matches Err(e) ==> e@
            == "engine rejected partition routing installation"@),
{
    if before is Vacant {
        let code = choose|code: i32| #[trigger]
            call_ensures(engine, (&state,), code) && next == install_step(before, state, code).0
                && reports_end(res, install_step(before, state, code).1);
        law_install_outcome(before, state, code, res);
    }
}

/// If the engine can only answer zero, an installation into a vacant registry is granted.
pub proof fn law_willing_engine_grants<S, F: FnOnce(&S) -> i32>(
    state: S,
    engine: F,
    next: Registry<S>,
    res: Result<RoutingGuard, Error>,
)
    requires
        installs(Registry::Vacant, state, engine, next, res),
        forall|code: i32| #[trigger] call_ensures(engine, (&state,), code) ==> code == 0,
    ensures
        res is Ok,
        next == Registry::Active(state),
{
    law_install_asks_about_its_state(Registry::Vacant, state, engine, next, res);
}

/// Columns that form a scan schema are handed to the engine under the caller's own parent table,
/// as a plan that describes exactly them, and the registration succeeds exactly if the engine
/// answers zero. Columns that do not are refused.
pub proof fn law_schema_handed_over<F: FnOnce(u64, &SchemaPlan) -> i32>(
    parent_table_id: u64,
    columns: Seq<(String, LogicalType)>,
    engine: F,
    res: Result<(), Error>,
) -> (handed: (SchemaPlan, i32))
    requires
        registers(parent_table_id, columns, engine, res),
    ensures
        acceptable(columns) ==> {
            &&& handed.0.describes(columns)
            &&& call_ensures(engine, (parent_table_id, &handed.0), handed.1)
            &&& res is Ok <==> handed.1 == 0
            &&& res matches Err(e) ==> e@ == "engine rejected partition routing schema"@
        },
        !acceptable(columns) ==> (res matches Err(e) && refused(columns, e@)),
{
    let (plan, code) = choose|plan: SchemaPlan, code: i32|
        plan.describes(columns) && #[trigger] call_ensures(
            engine,
            (parent_table_id, &plan),
            code,
        ) && schema_settled(code, res);
    (plan, code)
}

} // verus!

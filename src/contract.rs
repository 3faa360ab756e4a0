use vstd::prelude::*;

use crate::builder::{
    build_register, build_renew, build_resolve_query, register_call, renew_call, CallModel,
    RegistryTerms, RemoteCall, RemoteQuery, TermsModel,
};
use crate::gate::{authorize, check_admin, AppError};
use crate::msg::{
    AppExecuteMsg, AppInstantiateMsg, AppQueryMsg, ConfigResponse, CountResponse, DefaultIdResponse,
};
use crate::names::PreferredNames;
use crate::registry::{create_model, keys_below_next, TaskError, TaskRegistry};
use crate::scheduler::{build_recurring_renewal, is_renewal_request, SchedulerRegistration};
use crate::state::{Config, TaskEntry, TaskId};

verus! {

/// Where an outbound message is sent from: the module itself, or the account
/// that owns the module, on the module's behalf.
#[derive(Clone, Copy, Debug, PartialEq, Eq, Structural)]
pub enum Origin {
    Module,
    Account,
}

/// An outbound call and the address it leaves from.
pub struct Outbound {
    pub origin: Origin,
    pub call: RemoteCall,
}

/// What a request hands back to the host: the action's name, the calls to
/// dispatch, a task to register with the scheduler, and audit attributes.
pub struct Reply {
    pub action: String,
    pub messages: Vec<Outbound>,
    pub task_request: Option<SchedulerRegistration>,
    pub attributes: Vec<(String, String)>,
}

impl Reply {
    pub open spec fn messages_model(&self) -> Seq<(Origin, CallModel)> {
        self.messages@.map_values(|m: Outbound| (m.origin, m.call@))
    }

    pub open spec fn attributes_model(&self) -> Seq<(Seq<char>, Seq<char>)> {
        self.attributes@.map_values(|a: (String, String)| (a.0@, a.1@))
    }
}

/// The environment of one request: this module's address, the owning
/// account's address, the caller, and the administrator.
pub struct Context {
    pub module_addr: String,
    pub account_addr: String,
    pub sender: String,
    pub admin: String,
}

/// The address that a message from `origin` leaves from.
pub open spec fn origin_addr(origin: Origin, ctx: &Context) -> Seq<char> {
    match origin {
        Origin::Module => ctx.module_addr@,
        Origin::Account => ctx.account_addr@,
    }
}

/// The persistent state of the module.
pub struct AppState {
    pub config: Config,
    pub terms: RegistryTerms,
    pub count: i32,
    pub default_ids: PreferredNames,
    pub tasks: TaskRegistry,
}

/// `a` and `b` agree on everything but the task registry.
pub open spec fn same_but_tasks(a: &AppState, b: &AppState) -> bool {
    &&& a.config == b.config
    &&& a.terms == b.terms
    &&& a.count == b.count
    &&& a.default_ids@ == b.default_ids@
}

/// `a` and `b` agree on everything but the counter.
pub open spec fn same_but_count(a: &AppState, b: &AppState) -> bool {
    &&& a.config == b.config
    &&& a.terms == b.terms
    &&& a.tasks@ == b.tasks@
    &&& a.default_ids@ == b.default_ids@
}

/// `a` and `b` hold the same state.
pub open spec fn unchanged(a: &AppState, b: &AppState) -> bool {
    same_but_tasks(a, b) && a.tasks@ == b.tasks@
}

/// `r` carries only the action `action`: no calls, task or attributes.
pub open spec fn is_plain_reply(r: Reply, action: Seq<char>) -> bool {
    &&& r.action@ == action
    &&& r.messages@.len() == 0
    &&& r.task_request is None
    &&& r.attributes@.len() == 0
}

/// `r` registers `name` under `terms`, sent from `origin`, and records the caller.
pub open spec fn register_outcome(terms: TermsModel, ctx: &Context, name: Seq<char>, origin: Origin, r: Reply) -> bool {
    &&& r.action@ == "register_domain"@
    &&& r.messages_model() == seq![(origin, register_call(terms, name))]
    &&& r.task_request is None
    &&& r.attributes_model() == seq![("sender"@, ctx.sender@)]
}

/// What the renewal entry point answers for `task_id` when the scheduler
/// reports `executor` for it.
pub open spec fn renew_outcome(
    state: &AppState,
    ctx: &Context,
    task_id: TaskId,
    executor: Seq<char>,
    r: Result<Reply, AppError>,
) -> bool {
    if ctx.sender@ != executor {
        r matches Err(AppError::NotManager { caller, expected }) && caller@ == ctx.sender@
            && expected@ == executor
    } else if !state.tasks@.entries.contains_key(task_id.0) {
        r == Err::<Reply, AppError>(AppError::Task(TaskError::UnknownTaskId { id: task_id.0 }))
    } else {
        &&& r matches Ok(reply)
        &&& reply.action@ == "renew_domain"@
        &&& reply.messages_model() == seq![
            (Origin::Account, renew_call(state.terms@, state.tasks@.entries[task_id.0].domain_name@)),
        ]
        &&& reply.task_request is None
        &&& reply.attributes_model() == seq![("sender"@, ctx.sender@)]
    }
}

/// What creating a renewal task of `domain_name` on `frequency` does to the
/// state (`pre` to `post`) and answers.
pub open spec fn create_outcome(
    pre: &AppState,
    post: &AppState,
    ctx: &Context,
    frequency: String,
    domain_name: String,
    r: Result<Reply, AppError>,
) -> bool {
    let entry = TaskEntry { frequency, domain_name };
    let (m, id) = create_model(pre.tasks@, entry);
    &&& same_but_tasks(post, pre)
    &&& keys_below_next(pre.tasks@) ==> keys_below_next(post.tasks@)
    &&& if ctx.sender@ != ctx.admin@ {
        r == Err::<Reply, AppError>(AppError::NotAdmin) && post.tasks@ == pre.tasks@
    } else if id == u64::MAX {
        r == Err::<Reply, AppError>(AppError::Task(TaskError::IdsExhausted)) && post.tasks@ == pre.tasks@
    } else if pre.tasks@.entries.contains_key(id) {
        r == Err::<Reply, AppError>(AppError::Task(TaskError::DuplicateTaskId { id }))
            && post.tasks@ == pre.tasks@
    } else {
        &&& post.tasks@ == m
        &&& keys_below_next(pre.tasks@) ==> forall|k: u64| pre.tasks@.entries.contains_key(k) ==> k < id
        &&& r matches Ok(reply)
        &&& reply.action@ == "create_auto_renewal_task"@
        &&& reply.messages@.len() == 0
        &&& reply.task_request matches Some(req)
        &&& is_renewal_request(req, ctx.module_addr@, frequency@, id, pre.config)
        &&& reply.attributes_model() == seq![("sender"@, ctx.sender@)]
    }
}

/// The states `states[0..=n]` are linked by `n` successful task creations.
pub open spec fn created_in_a_row(
    states: Seq<AppState>,
    ctxs: Seq<Context>,
    frequencies: Seq<String>,
    names: Seq<String>,
    results: Seq<Result<Reply, AppError>>,
    n: int,
) -> bool {
    forall|i: int|
        0 <= i < n ==> #[trigger] results[i] is Ok && create_outcome(
            &states[i],
            &states[i + 1],
            &ctxs[i],
            frequencies[i],
            names[i],
            results[i],
        )
}

/// Task creations that all succeed, starting from a state with no task, hand
/// out the ids 0, 1, ..., n - 1 in call order (call `i` binds id `i`, which
/// is also the id in its scheduler request), and leave exactly those ids bound.
pub proof fn lemma_created_ids_from_fresh(
    states: Seq<AppState>,
    ctxs: Seq<Context>,
    frequencies: Seq<String>,
    names: Seq<String>,
    results: Seq<Result<Reply, AppError>>,
)
    requires
        states.len() == results.len() + 1,
        ctxs.len() == results.len(),
        frequencies.len() == results.len(),
        names.len() == results.len(),
        states[0].tasks@.next == 0,
        states[0].tasks@.entries == Map::<u64, TaskEntry>::empty(),
        created_in_a_row(states, ctxs, frequencies, names, results, results.len() as int),
    ensures
        forall|i: int| 0 <= i < results.len() ==> #[trigger] states[i].tasks@.next == i,
        forall|i: int|
            0 <= i < results.len() ==> (#[trigger] results[i] matches Ok(reply) && reply.task_request matches Some(req)
                && is_renewal_request(req, ctxs[i].module_addr@, frequencies[i]@, i as u64, states[i].config)),
        states.last().tasks@.entries.dom() == Set::new(|k: u64| k < results.len()),
{
    lemma_created_prefix(states, ctxs, frequencies, names, results, results.len() as int);
}

proof fn lemma_created_prefix(
    states: Seq<AppState>,
    ctxs: Seq<Context>,
    frequencies: Seq<String>,
    names: Seq<String>,
    results: Seq<Result<Reply, AppError>>,
    n: int,
)
    requires
        0 <= n <= results.len(),
        states.len() == results.len() + 1,
        ctxs.len() == results.len(),
        frequencies.len() == results.len(),
        names.len() == results.len(),
        states[0].tasks@.next == 0,
        states[0].tasks@.entries == Map::<u64, TaskEntry>::empty(),
        created_in_a_row(states, ctxs, frequencies, names, results, results.len() as int),
    ensures
        forall|i: int| 0 <= i <= n ==> #[trigger] states[i].tasks@.next == i,
        forall|i: int|
            0 <= i < n ==> (#[trigger] results[i] matches Ok(reply) && reply.task_request matches Some(req)
                && is_renewal_request(req, ctxs[i].module_addr@, frequencies[i]@, i as u64, states[i].config)),
        states[n].tasks@.entries.dom() == Set::new(|k: u64| k < n),
    decreases n,
{
    if n == 0 {
        assert(states[0].tasks@.entries.dom() =~= Set::new(|k: u64| k < 0));
    } else {
        lemma_created_prefix(states, ctxs, frequencies, names, results, n - 1);
        let i = n - 1;
        assert(results[i] is Ok && create_outcome(&states[i], &states[i + 1], &ctxs[i], frequencies[i], names[i], results[i]));
        assert(states[n].tasks@.entries.dom() =~= Set::new(|k: u64| k < n));
    }
}

/// What adding one to the counter does.
pub open spec fn increment_outcome(pre: &AppState, post: &AppState, r: Result<Reply, AppError>) -> bool {
    &&& same_but_count(post, pre)
    &&& if pre.count == i32::MAX {
        r == Err::<Reply, AppError>(AppError::CountOverflow) && post.count == pre.count
    } else {
        r matches Ok(reply) && is_plain_reply(reply, "increment"@) && post.count == pre.count + 1
    }
}

/// What setting the counter to `count` does.
pub open spec fn reset_outcome(
    pre: &AppState,
    post: &AppState,
    ctx: &Context,
    count: i32,
    r: Result<Reply, AppError>,
) -> bool {
    &&& same_but_count(post, pre)
    &&& if ctx.sender@ != ctx.admin@ {
        r == Err::<Reply, AppError>(AppError::NotAdmin) && post.count == pre.count
    } else {
        r matches Ok(reply) && is_plain_reply(reply, "reset"@) && post.count == count
    }
}

/// What the configuration update answers.
pub open spec fn update_config_outcome(ctx: &Context, r: Result<Reply, AppError>) -> bool {
    if ctx.sender@ != ctx.admin@ {
        r == Err::<Reply, AppError>(AppError::NotAdmin)
    } else {
        r matches Ok(reply) && is_plain_reply(reply, "update_config"@)
    }
}

/// The preferred name that `update_default_id` stores for its caller.
pub open spec fn default_preferred_name() -> Seq<char> {
    "hello.arch"@
}

/// What storing the caller's preferred name does.
pub open spec fn update_default_id_outcome(pre: &AppState, post: &AppState, ctx: &Context, r: Reply) -> bool {
    &&& post.default_ids@ == pre.default_ids@.insert(ctx.sender@, default_preferred_name())
    &&& post.config == pre.config
    &&& post.terms == pre.terms
    &&& post.count == pre.count
    &&& post.tasks@ == pre.tasks@
    &&& r.action@ == "update_default_id"@
    &&& r.messages@.len() == 0
    &&& r.task_request is None
    &&& r.attributes_model() == seq![("default_id"@, default_preferred_name())]
}

/// A reply without calls, task or attributes.
fn plain_reply(action: String) -> (r: Reply)
    ensures
        r.action == action,
        r.messages@.len() == 0,
        r.task_request is None,
        r.attributes@.len() == 0,
{
    Reply { action, messages: Vec::new(), task_request: None, attributes: Vec::new() }
}

/// A reply that records the caller under `sender`.
fn sender_reply(
    action: String,
    sender: &String,
    messages: Vec<Outbound>,
    task_request: Option<SchedulerRegistration>,
) -> (r: Reply)
    ensures
        r.action == action,
        r.messages == messages,
        r.task_request == task_request,
        r.attributes_model() == seq![("sender"@, sender@)],
{
    let key = String::from_str("sender");
    proof {
        reveal_strlit("sender");
    }
    let r = Reply { action, messages, task_request, attributes: vec![(key, sender.clone())] };
    assert(r.attributes_model() =~= seq![("sender"@, sender@)]);
    r
}

/// One outbound message.
fn single(origin: Origin, call: RemoteCall) -> (r: Vec<Outbound>)
    ensures
        r@.map_values(|m: Outbound| (m.origin, m.call@)) == seq![(origin, call@)],
{
    let r = vec![Outbound { origin, call }];
    assert(r@.map_values(|m: Outbound| (m.origin, m.call@)) =~= seq![(origin, call@)]);
    r
}

/// Sets the module up: the native asset must have resolved to a native
/// denomination (`native_denom`), else setup fails with `NotNativeAsset`.
pub fn instantiate_handler(msg: AppInstantiateMsg, native_denom: Option<String>) -> (r: Result<AppState, AppError>)
    ensures
        native_denom is None ==> r == Err::<AppState, AppError>(AppError::NotNativeAsset),
        native_denom matches Some(d) ==> (r matches Ok(s) && s.config == (Config {
            native_denom: d,
            task_creation_amount: msg.task_creation_amount,
            refill_threshold: msg.refill_threshold,
        }) && s.count == msg.count && s.tasks@.next == 0
            && s.tasks@.entries == Map::<u64, TaskEntry>::empty() && keys_below_next(s.tasks@)
            && s.default_ids@ == Map::<Seq<char>, Seq<char>>::empty()
            && s.terms@ == RegistryTerms::archway_testnet_model()),
{
    match native_denom {
        None => Err(AppError::NotNativeAsset),
        Some(d) => Ok(AppState {
            config: Config {
                native_denom: d,
                task_creation_amount: msg.task_creation_amount,
                refill_threshold: msg.refill_threshold,
            },
            terms: RegistryTerms::archway_testnet(),
            count: msg.count,
            default_ids: PreferredNames::new(),
            tasks: TaskRegistry::new(),
        }),
    }
}

/// Registers `desired_name` for one period with a call sent directly from
/// the module.
pub fn register_domain(state: &AppState, ctx: &Context, desired_name: &String) -> (r: Reply)
    ensures
        register_outcome(state.terms@, ctx, desired_name@, Origin::Module, r),
{
    let call = build_register(&state.terms, desired_name);
    let action = String::from_str("register_domain");
    proof {
        reveal_strlit("register_domain");
    }
    sender_reply(action, &ctx.sender, single(Origin::Module, call), None)
}

/// Registers `desired_name` for one period with a call that the owning
/// account sends on the module's behalf.
pub fn register_domain2(state: &AppState, ctx: &Context, desired_name: &String) -> (r: Reply)
    ensures
        register_outcome(state.terms@, ctx, desired_name@, Origin::Account, r),
{
    let call = build_register(&state.terms, desired_name);
    let action = String::from_str("register_domain");
    proof {
        reveal_strlit("register_domain");
    }
    sender_reply(action, &ctx.sender, single(Origin::Account, call), None)
}

/// A message sent through the owning account leaves from the account, one
/// sent directly leaves from the module: where the two addresses differ, the
/// two ways of registering a name send the same call from different places.
pub proof fn lemma_proxied_origin_differs(
    terms: TermsModel,
    ctx: &Context,
    name: Seq<char>,
    direct: Reply,
    proxied: Reply,
)
    requires
        ctx.module_addr@ != ctx.account_addr@,
        register_outcome(terms, ctx, name, Origin::Module, direct),
        register_outcome(terms, ctx, name, Origin::Account, proxied),
    ensures
        direct.messages_model()[0].1 == proxied.messages_model()[0].1,
        origin_addr(direct.messages_model()[0].0, ctx) == ctx.module_addr@,
        origin_addr(proxied.messages_model()[0].0, ctx) == ctx.account_addr@,
        origin_addr(direct.messages_model()[0].0, ctx) != origin_addr(proxied.messages_model()[0].0, ctx),
{
}

/// Two registrations of the same name under the same registry terms send
/// identical calls, whoever asks; only the recorded sender may differ.
pub proof fn lemma_registrations_repeatable(
    terms: TermsModel,
    c1: &Context,
    c2: &Context,
    name: Seq<char>,
    origin: Origin,
    a: Reply,
    b: Reply,
)
    requires
        register_outcome(terms, c1, name, origin, a),
        register_outcome(terms, c2, name, origin, b),
    ensures
        a.messages_model() == b.messages_model(),
        a.action@ == b.action@,
{
}

/// Two renewals of the same task, each triggered by the executor recorded
/// for it, over states with the same registry terms and the same name bound
/// to the task, both succeed and send identical calls.
pub proof fn lemma_renewals_repeatable(
    s1: &AppState,
    s2: &AppState,
    c1: &Context,
    c2: &Context,
    task_id: TaskId,
    r1: Result<Reply, AppError>,
    r2: Result<Reply, AppError>,
)
    requires
        s1.terms@ == s2.terms@,
        s1.tasks@.entries.contains_key(task_id.0),
        s2.tasks@.entries.contains_key(task_id.0),
        s1.tasks@.entries[task_id.0].domain_name@ == s2.tasks@.entries[task_id.0].domain_name@,
        renew_outcome(s1, c1, task_id, c1.sender@, r1),
        renew_outcome(s2, c2, task_id, c2.sender@, r2),
    ensures
        r1 is Ok && r2 is Ok,
        r1.unwrap().messages_model() == r2.unwrap().messages_model(),
{
}

/// The renewal entry point that the scheduler triggers. Only the executor
/// that the scheduler reports for `task_id` may call it; the name bound to
/// the task is then renewed through the owning account.
pub fn renew_domain(state: &AppState, ctx: &Context, task_id: TaskId, reported_executor: &String) -> (r: Result<Reply, AppError>)
    ensures
        renew_outcome(state, ctx, task_id, reported_executor@, r),
{
    match authorize(&ctx.sender, reported_executor) {
        Ok(()) => {},
        Err(e) => return Err(e),
    }
    let entry = match state.tasks.resolve(task_id) {
        Ok(e) => e,
        Err(e) => return Err(AppError::Task(e)),
    };
    let call = build_renew(&state.terms, &entry.domain_name);
    let action = String::from_str("renew_domain");
    proof {
        reveal_strlit("renew_domain");
    }
    Ok(sender_reply(action, &ctx.sender, single(Origin::Account, call), None))
}

/// Creates a recurring renewal of `domain_name` on `frequency`: binds a new
/// task id to the name and hands back the scheduler request for it, or
/// changes nothing. Administrator only.
pub fn create_auto_renewal_task(
    state: &mut AppState,
    ctx: &Context,
    frequency: String,
    domain_name: String,
) -> (r: Result<Reply, AppError>)
    ensures
        create_outcome(old(state), final(state), ctx, frequency, domain_name, r),
{
    match check_admin(&ctx.sender, &ctx.admin) {
        Ok(()) => {},
        Err(e) => return Err(e),
    }
    let schedule = frequency.clone();
    let id = match state.tasks.create_task(frequency, domain_name) {
        Ok(id) => id,
        Err(e) => return Err(AppError::Task(e)),
    };
    let request = build_recurring_renewal(&ctx.module_addr, schedule, id, &state.config);
    let action = String::from_str("create_auto_renewal_task");
    proof {
        reveal_strlit("create_auto_renewal_task");
    }
    Ok(sender_reply(action, &ctx.sender, Vec::new(), Some(request)))
}

/// Adds one to the counter; at `i32::MAX` fails with `CountOverflow` and
/// changes nothing.
pub fn increment(state: &mut AppState) -> (r: Result<Reply, AppError>)
    ensures
        increment_outcome(old(state), final(state), r),
{
    if state.count == i32::MAX {
        return Err(AppError::CountOverflow);
    }
    state.count = state.count + 1;
    let action = String::from_str("increment");
    proof {
        reveal_strlit("increment");
    }
    Ok(plain_reply(action))
}

/// Sets the counter to `count`. Administrator only.
pub fn reset(state: &mut AppState, ctx: &Context, count: i32) -> (r: Result<Reply, AppError>)
    ensures
        reset_outcome(old(state), final(state), ctx, count, r),
{
    match check_admin(&ctx.sender, &ctx.admin) {
        Ok(()) => {},
        Err(e) => return Err(e),
    }
    state.count = count;
    let action = String::from_str("reset");
    proof {
        reveal_strlit("reset");
    }
    Ok(plain_reply(action))
}

/// Checks that the caller is the administrator; the configuration has no
/// field that can be changed yet.
pub fn update_config(state: &AppState, ctx: &Context) -> (r: Result<Reply, AppError>)
    ensures
        update_config_outcome(ctx, r),
{
    match check_admin(&ctx.sender, &ctx.admin) {
        Ok(()) => {},
        Err(e) => return Err(e),
    }
    let action = String::from_str("update_config");
    proof {
        reveal_strlit("update_config");
    }
    Ok(plain_reply(action))
}

/// Stores `hello.arch` as the caller's preferred name.
pub fn update_default_id(state: &mut AppState, ctx: &Context) -> (r: Reply)
    ensures
        update_default_id_outcome(old(state), final(state), ctx, r),
{
    let value = String::from_str("hello.arch");
    let key = String::from_str("default_id");
    let action = String::from_str("update_default_id");
    proof {
        reveal_strlit("hello.arch");
        reveal_strlit("default_id");
        reveal_strlit("update_default_id");
    }
    state.default_ids.set(ctx.sender.clone(), value.clone());
    let r = Reply { action, messages: Vec::new(), task_request: None, attributes: vec![(key, value)] };
    assert(r.attributes_model() =~= seq![("default_id"@, default_preferred_name())]);
    r
}

/// Cancelling a renewal task is not offered: tasks run until the scheduler
/// drops them, and the request is answered with `Unsupported`.
pub fn cancel_auto_renewal_task(state: &AppState, task_id: TaskId) -> (r: Result<Reply, AppError>)
    ensures
        r == Err::<Reply, AppError>(AppError::Unsupported),
{
    Err(AppError::Unsupported)
}

/// The stored configuration, with the native denomination resolved at setup.
pub fn query_config(state: &AppState) -> (r: ConfigResponse)
    ensures
        r.native_asset@ == state.config.native_denom@,
        r.task_creation_amount == state.config.task_creation_amount,
        r.refill_threshold == state.config.refill_threshold,
{
    ConfigResponse {
        native_asset: state.config.native_denom.clone(),
        task_creation_amount: state.config.task_creation_amount,
        refill_threshold: state.config.refill_threshold,
    }
}

/// The counter.
pub fn query_count(state: &AppState) -> (r: CountResponse)
    ensures
        r.count == state.count,
{
    CountResponse { count: state.count }
}

/// The query to hand to the registry for the record of `domain_name`; its
/// answer is passed through unchanged.
pub fn query_name_resolution(state: &AppState, domain_name: &String) -> (r: RemoteQuery)
    ensures
        r.contract_addr@ == state.terms@.registry,
        r.msg@ == crate::builder::resolve_msg(domain_name@),
{
    build_resolve_query(&state.terms, domain_name)
}

/// The preferred name stored for `address`.
pub fn query_default_id(state: &AppState, address: &String) -> (r: Result<DefaultIdResponse, AppError>)
    ensures
        !state.default_ids@.contains_key(address@) ==> r == Err::<DefaultIdResponse, AppError>(
            AppError::DefaultIdNotFound,
        ),
        state.default_ids@.contains_key(address@) ==> (r matches Ok(resp)
            && resp.default_id@ == state.default_ids@[address@]),
{
    match state.default_ids.get(address) {
        Some(name) => Ok(DefaultIdResponse { default_id: name.clone() }),
        None => Err(AppError::DefaultIdNotFound),
    }
}

/// The answer to a query: a response of this module, or a query that the
/// host forwards to the registry.
pub enum QueryAnswer {
    Config(ConfigResponse),
    Count(CountResponse),
    NameResolution(RemoteQuery),
    DefaultId(DefaultIdResponse),
}

/// Answers `msg` from `state`.
pub fn query_handler(state: &AppState, msg: &AppQueryMsg) -> (r: Result<QueryAnswer, AppError>)
    ensures
        msg is Config ==> (r matches Ok(QueryAnswer::Config(c)) && c.native_asset@ == state.config.native_denom@
            && c.task_creation_amount == state.config.task_creation_amount
            && c.refill_threshold == state.config.refill_threshold),
        msg is Count ==> (r matches Ok(QueryAnswer::Count(c)) && c.count == state.count),
        msg matches AppQueryMsg::NameResolution { domain_name } ==> (r matches Ok(QueryAnswer::NameResolution(q))
            && q.contract_addr@ == state.terms@.registry
            && q.msg@ == crate::builder::resolve_msg(domain_name@)),
        msg matches AppQueryMsg::DefaultId { address } ==> (if state.default_ids@.contains_key(address@) {
            r matches Ok(QueryAnswer::DefaultId(d)) && d.default_id@ == state.default_ids@[address@]
        } else {
            r == Err::<QueryAnswer, AppError>(AppError::DefaultIdNotFound)
        }),
{
    match msg {
        AppQueryMsg::Config {} => Ok(QueryAnswer::Config(query_config(state))),
        AppQueryMsg::Count {} => Ok(QueryAnswer::Count(query_count(state))),
        AppQueryMsg::NameResolution { domain_name } => Ok(
            QueryAnswer::NameResolution(query_name_resolution(state, domain_name)),
        ),
        AppQueryMsg::DefaultId { address } => match query_default_id(state, address) {
            Ok(d) => Ok(QueryAnswer::DefaultId(d)),
            Err(e) => Err(e),
        },
    }
}

/// Executes `msg`. For a renewal, `reported_executor` is the executor that
/// the scheduler records for the task; without it the renewal is refused
/// with `ExecutorUnknown`.
pub fn execute_handler(
    state: &mut AppState,
    ctx: &Context,
    msg: AppExecuteMsg,
    reported_executor: Option<String>,
) -> (r: Result<Reply, AppError>)
    ensures
        match msg {
            AppExecuteMsg::Increment {} => increment_outcome(old(state), final(state), r),
            AppExecuteMsg::Reset { count } => reset_outcome(old(state), final(state), ctx, count, r),
            AppExecuteMsg::UpdateConfig {} => unchanged(final(state), old(state)) && update_config_outcome(ctx, r),
            AppExecuteMsg::UpdateDefaultID {} => r matches Ok(reply) && update_default_id_outcome(
                old(state),
                final(state),
                ctx,
                reply,
            ),
            AppExecuteMsg::RegisterDomain { desired_name } => unchanged(final(state), old(state)) && (r matches Ok(
                reply,
            ) && register_outcome(old(state).terms@, ctx, desired_name@, Origin::Module, reply)),
            AppExecuteMsg::RegisterDomain2 { desired_name } => unchanged(final(state), old(state)) && (r matches Ok(
                reply,
            ) && register_outcome(old(state).terms@, ctx, desired_name@, Origin::Account, reply)),
            AppExecuteMsg::CreateAutoRenewalTask { frequency, domain_name } => create_outcome(
                old(state),
                final(state),
                ctx,
                frequency,
                domain_name,
                r,
            ),
            AppExecuteMsg::RenewDomain { task_id } => unchanged(final(state), old(state)) && match reported_executor {
                None => r == Err::<Reply, AppError>(AppError::ExecutorUnknown),
                Some(e) => renew_outcome(old(state), ctx, task_id, e@, r),
            },
            AppExecuteMsg::CancelAutoRenewalTask { task_id } => unchanged(final(state), old(state)) && r
                == Err::<Reply, AppError>(AppError::Unsupported),
        },
{
    match msg {
        AppExecuteMsg::Increment {} => increment(state),
        AppExecuteMsg::Reset { count } => reset(state, ctx, count),
        AppExecuteMsg::UpdateConfig {} => update_config(state, ctx),
        AppExecuteMsg::UpdateDefaultID {} => Ok(update_default_id(state, ctx)),
        AppExecuteMsg::RegisterDomain { desired_name } => Ok(register_domain(state, ctx, &desired_name)),
        AppExecuteMsg::RegisterDomain2 { desired_name } => Ok(register_domain2(state, ctx, &desired_name)),
        AppExecuteMsg::RenewDomain { task_id } => match reported_executor {
            Some(executor) => renew_domain(state, ctx, task_id, &executor),
            None => Err(AppError::ExecutorUnknown),
        },
        AppExecuteMsg::CreateAutoRenewalTask { frequency, domain_name } => create_auto_renewal_task(
            state,
            ctx,
            frequency,
            domain_name,
        ),
        AppExecuteMsg::CancelAutoRenewalTask { task_id } => cancel_auto_renewal_task(state, task_id),
    }
}

} // verus!

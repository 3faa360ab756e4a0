use archid_autorenew::builder::{
    build_register, build_renew, registry_call, RegistryTerms, COST_PER_PERIOD,
};
use archid_autorenew::contract::{
    create_auto_renewal_task, execute_handler, increment, instantiate_handler, query_config,
    query_count, query_default_id, query_handler, query_name_resolution, register_domain,
    register_domain2, renew_domain, reset, update_default_id, AppState, Context, Origin,
    QueryAnswer,
};
use archid_autorenew::gate::{authorize, check_admin, AppError};
use archid_autorenew::msg::{AppExecuteMsg, AppInstantiateMsg, AppQueryMsg, ConfigResponse};
use archid_autorenew::registry::{TaskError, TaskRegistry};
use archid_autorenew::scheduler::{build_recurring_renewal, renew_entry_payload, RENEWAL_GAS_LIMIT};
use archid_autorenew::state::{Config, TaskEntry, TaskId};

const ADMIN: &str = "admin";
const AGENT: &str = "agent";
const MODULE: &str = "module";
const ACCOUNT: &str = "account";
const REGISTRY: &str = "archway1lr8rstt40s697hqpedv2nvt27f4cuccqwvly9gnvuszxmcevrlns60xw4r";

fn ctx(sender: &str) -> Context {
    Context {
        module_addr: MODULE.to_string(),
        account_addr: ACCOUNT.to_string(),
        sender: sender.to_string(),
        admin: ADMIN.to_string(),
    }
}

fn setup() -> AppState {
    let msg = AppInstantiateMsg {
        count: 0,
        native_asset: "denom".to_string(),
        task_creation_amount: 5_000_000,
        refill_threshold: 100_000,
    };
    instantiate_handler(msg, Some("abstr".to_string())).unwrap()
}

fn text(bytes: &[u8]) -> String {
    String::from_utf8(bytes.to_vec()).unwrap()
}

#[test]
fn successful_install() {
    let state = setup();
    let config = query_config(&state);
    assert_eq!(
        config,
        ConfigResponse {
            native_asset: "abstr".to_string(),
            task_creation_amount: 5_000_000,
            refill_threshold: 100_000,
        }
    );
}

#[test]
fn instantiate_refuses_non_native_asset() {
    let msg = AppInstantiateMsg {
        count: 0,
        native_asset: "cw20token".to_string(),
        task_creation_amount: 1,
        refill_threshold: 1,
    };
    assert!(matches!(instantiate_handler(msg, None), Err(AppError::NotNativeAsset)));
}

#[test]
fn next_id_adds_one() {
    assert_eq!(TaskId(0).next_id(), TaskId(1));
    assert_eq!(TaskId(41).next_id(), TaskId(42));
}

#[test]
fn tag_renders_decimal() {
    assert_eq!(TaskId(0).tag(), "task_0");
    assert_eq!(TaskId(1234).tag(), "task_1234");
    assert_eq!(TaskId(u64::MAX).tag(), "task_18446744073709551615");
}

#[test]
fn created_ids_count_up_from_zero() {
    let mut reg = TaskRegistry::new();
    for expected in 0..5u64 {
        let id = reg.create_task("0 0 * * *".to_string(), format!("name{expected}.arch")).unwrap();
        assert_eq!(id, TaskId(expected));
    }
    for k in 0..5u64 {
        assert_eq!(reg.resolve(TaskId(k)).unwrap().domain_name, format!("name{k}.arch"));
    }
    assert_eq!(reg.resolve(TaskId(5)), Err(TaskError::UnknownTaskId { id: 5 }));
    assert_eq!(reg.peek_next_id(), TaskId(5));
}

#[test]
fn allocated_id_is_unknown_until_bound() {
    let mut reg = TaskRegistry::new();
    let id = reg.allocate_task_id().unwrap();
    assert_eq!(id, TaskId(0));
    assert_eq!(reg.resolve(id), Err(TaskError::UnknownTaskId { id: 0 }));
    let entry = TaskEntry { frequency: "f".to_string(), domain_name: "d.arch".to_string() };
    reg.bind(id, entry.clone()).unwrap();
    assert_eq!(reg.resolve(id), Ok(&entry));
}

#[test]
fn bind_refuses_duplicate() {
    let mut reg = TaskRegistry::new();
    let entry = TaskEntry { frequency: "f".to_string(), domain_name: "a.arch".to_string() };
    reg.bind(TaskId(7), entry.clone()).unwrap();
    let other = TaskEntry { frequency: "g".to_string(), domain_name: "b.arch".to_string() };
    assert_eq!(reg.bind(TaskId(7), other), Err(TaskError::DuplicateTaskId { id: 7 }));
    assert_eq!(reg.resolve(TaskId(7)), Ok(&entry));
}

#[test]
fn create_after_conflicting_bind_is_refused() {
    let mut reg = TaskRegistry::new();
    let entry = TaskEntry { frequency: "f".to_string(), domain_name: "a.arch".to_string() };
    reg.bind(TaskId(0), entry).unwrap();
    assert_eq!(
        reg.create_task("f".to_string(), "b.arch".to_string()),
        Err(TaskError::DuplicateTaskId { id: 0 })
    );
    assert_eq!(reg.peek_next_id(), TaskId(0));
}

#[test]
fn authorize_matches_reported_executor() {
    assert_eq!(authorize(&"agent".to_string(), &"agent".to_string()), Ok(()));
    assert_eq!(
        authorize(&"intruder".to_string(), &"agent".to_string()),
        Err(AppError::NotManager { caller: "intruder".to_string(), expected: "agent".to_string() })
    );
    // the executor of another task is not the executor of this one
    let executors = ["agent_a", "agent_b"];
    assert!(authorize(&executors[1].to_string(), &executors[0].to_string()).is_err());
}

#[test]
fn admin_check() {
    assert_eq!(check_admin(&"admin".to_string(), &"admin".to_string()), Ok(()));
    assert_eq!(check_admin(&"bob".to_string(), &"admin".to_string()), Err(AppError::NotAdmin));
}

#[test]
fn register_call_payload_and_tariff() {
    let terms = RegistryTerms::archway_testnet();
    let call = build_register(&terms, &"example.arch".to_string());
    assert_eq!(call.contract_addr, REGISTRY);
    assert_eq!(text(&call.msg), r#"{"register":{"name":"example.arch"}}"#);
    assert_eq!(call.funds.len(), 1);
    assert_eq!(call.funds[0].denom, "aconst");
    assert_eq!(call.funds[0].amount, 1_000_000_000_000_000_000);
    assert_eq!(COST_PER_PERIOD, 1_000_000_000_000_000_000);
}

#[test]
fn builders_are_repeatable() {
    let terms = RegistryTerms::new("reg".to_string(), "uarch".to_string(), 7);
    let a = build_register(&terms, &"x.arch".to_string());
    let b = build_register(&terms, &"x.arch".to_string());
    assert_eq!(a.msg, b.msg);
    assert_eq!(a.contract_addr, b.contract_addr);
    let c = build_renew(&terms, &"x.arch".to_string());
    let d = build_renew(&terms, &"x.arch".to_string());
    assert_eq!(c.msg, d.msg);
    assert_eq!(c.funds[0].amount, 7);
    assert_eq!(c.funds[0].denom, "uarch");
    assert_ne!(a.msg, c.msg);
}

#[test]
fn name_is_escaped_in_payload() {
    let terms = RegistryTerms::archway_testnet();
    let call = build_renew(&terms, &"a\"b".to_string());
    assert_eq!(text(&call.msg), r#"{"renew_registration":{"name":"a\"b"}}"#);
}

#[test]
fn renew_entry_payload_carries_task_id() {
    assert_eq!(text(&renew_entry_payload(TaskId(0))), r#"{"module":{"renew_domain":{"task_id":0}}}"#);
    assert_eq!(
        text(&renew_entry_payload(TaskId(907))),
        r#"{"module":{"renew_domain":{"task_id":907}}}"#
    );
}

#[test]
fn recurring_renewal_request_fields() {
    let config = Config {
        native_denom: "uconst".to_string(),
        task_creation_amount: 5_000_000,
        refill_threshold: 1_000_000,
    };
    let req = build_recurring_renewal(&MODULE.to_string(), "0 0 * * *".to_string(), TaskId(3), &config);
    assert_eq!(req.tag, "task_3");
    assert_eq!(req.schedule, "0 0 * * *");
    assert!(req.stop_on_fail);
    assert_eq!(req.actions.len(), 1);
    assert_eq!(req.actions[0].gas_limit, RENEWAL_GAS_LIMIT);
    assert_eq!(req.actions[0].gas_limit, 300_000);
    assert_eq!(req.actions[0].call.contract_addr, MODULE);
    assert!(req.actions[0].call.funds.is_empty());
    assert_eq!(text(&req.actions[0].call.msg), r#"{"module":{"renew_domain":{"task_id":3}}}"#);
    assert_eq!(req.funding.len(), 1);
    assert_eq!(req.funding[0].denom, "uconst");
    assert_eq!(req.funding[0].amount, 5_000_000);
}

#[test]
fn scenario_create_auto_renewal_task() {
    let mut state = setup();
    let reply =
        create_auto_renewal_task(&mut state, &ctx(ADMIN), "0 0 * * *".to_string(), "example.arch".to_string())
            .unwrap();
    let entry = state.tasks.resolve(TaskId(0)).unwrap();
    assert_eq!(entry.frequency, "0 0 * * *");
    assert_eq!(entry.domain_name, "example.arch");
    assert_eq!(state.tasks.peek_next_id(), TaskId(1));
    assert_eq!(reply.action, "create_auto_renewal_task");
    assert!(reply.messages.is_empty());
    assert_eq!(reply.attributes, vec![("sender".to_string(), ADMIN.to_string())]);
    let req = reply.task_request.unwrap();
    assert_eq!(req.actions.len(), 1);
    assert_eq!(req.actions[0].call.contract_addr, MODULE);
    assert_eq!(text(&req.actions[0].call.msg), r#"{"module":{"renew_domain":{"task_id":0}}}"#);
    assert_eq!(req.funding[0].denom, "abstr");
    assert_eq!(req.funding[0].amount, 5_000_000);
}

#[test]
fn create_task_requires_admin() {
    let mut state = setup();
    let r = create_auto_renewal_task(&mut state, &ctx("bob"), "f".to_string(), "x.arch".to_string());
    assert!(matches!(r, Err(AppError::NotAdmin)));
    assert_eq!(state.tasks.resolve(TaskId(0)), Err(TaskError::UnknownTaskId { id: 0 }));
    assert_eq!(state.tasks.peek_next_id(), TaskId(0));
}

#[test]
fn scenario_renewal_from_wrong_executor() {
    let mut state = setup();
    create_auto_renewal_task(&mut state, &ctx(ADMIN), "0 0 * * *".to_string(), "example.arch".to_string())
        .unwrap();
    let r = renew_domain(&state, &ctx("intruder"), TaskId(0), &AGENT.to_string());
    match r {
        Err(AppError::NotManager { caller, expected }) => {
            assert_eq!(caller, "intruder");
            assert_eq!(expected, AGENT);
        }
        _ => panic!("renewal from a wrong executor must be refused"),
    }
}

#[test]
fn scenario_renewal_from_recorded_executor() {
    let mut state = setup();
    create_auto_renewal_task(&mut state, &ctx(ADMIN), "0 0 * * *".to_string(), "example.arch".to_string())
        .unwrap();
    let reply = renew_domain(&state, &ctx(AGENT), TaskId(0), &AGENT.to_string()).unwrap();
    assert_eq!(reply.action, "renew_domain");
    assert_eq!(reply.messages.len(), 1);
    assert_eq!(reply.messages[0].origin, Origin::Account);
    let call = &reply.messages[0].call;
    assert_eq!(call.contract_addr, REGISTRY);
    assert_eq!(text(&call.msg), r#"{"renew_registration":{"name":"example.arch"}}"#);
    assert_eq!(call.funds[0].denom, "aconst");
    assert_eq!(call.funds[0].amount, COST_PER_PERIOD);
    assert_eq!(reply.attributes, vec![("sender".to_string(), AGENT.to_string())]);
}

#[test]
fn renewal_of_unknown_task() {
    let state = setup();
    let r = renew_domain(&state, &ctx(AGENT), TaskId(9), &AGENT.to_string());
    assert!(matches!(r, Err(AppError::Task(TaskError::UnknownTaskId { id: 9 }))));
}

#[test]
fn scenario_register_direct_and_proxied() {
    let state = setup();
    let direct = register_domain(&state, &ctx("alice"), &"new.arch".to_string());
    let proxied = register_domain2(&state, &ctx("alice"), &"new.arch".to_string());
    assert_eq!(direct.messages[0].origin, Origin::Module);
    assert_eq!(proxied.messages[0].origin, Origin::Account);
    assert_eq!(direct.messages[0].call.msg, proxied.messages[0].call.msg);
    assert_eq!(text(&direct.messages[0].call.msg), r#"{"register":{"name":"new.arch"}}"#);
    assert_eq!(direct.action, "register_domain");
    assert_eq!(proxied.attributes, vec![("sender".to_string(), "alice".to_string())]);
}

#[test]
fn counter_increment_and_reset() {
    let mut state = setup();
    increment(&mut state).unwrap();
    assert_eq!(query_count(&state).count, 1);
    assert!(matches!(reset(&mut state, &ctx("bob"), 9), Err(AppError::NotAdmin)));
    assert_eq!(query_count(&state).count, 1);
    reset(&mut state, &ctx(ADMIN), i32::MAX).unwrap();
    assert!(matches!(increment(&mut state), Err(AppError::CountOverflow)));
    assert_eq!(query_count(&state).count, i32::MAX);
}

#[test]
fn default_id_round_trip() {
    let mut state = setup();
    assert!(matches!(query_default_id(&state, &"alice".to_string()), Err(AppError::DefaultIdNotFound)));
    let reply = update_default_id(&mut state, &ctx("alice"));
    assert_eq!(reply.attributes, vec![("default_id".to_string(), "hello.arch".to_string())]);
    assert_eq!(query_default_id(&state, &"alice".to_string()).unwrap().default_id, "hello.arch");
    assert!(query_default_id(&state, &"bob".to_string()).is_err());
}

#[test]
fn name_resolution_query() {
    let state = setup();
    let q = query_name_resolution(&state, &"example.arch".to_string());
    assert_eq!(q.contract_addr, REGISTRY);
    assert_eq!(text(&q.msg), r#"{"resolve_record":{"name":"example.arch"}}"#);
    match query_handler(&state, &AppQueryMsg::NameResolution { domain_name: "example.arch".to_string() }) {
        Ok(QueryAnswer::NameResolution(q2)) => assert_eq!(q2.msg, q.msg),
        _ => panic!("expected a registry query"),
    }
}

#[test]
fn execute_dispatches() {
    let mut state = setup();
    let msg = AppExecuteMsg::CreateAutoRenewalTask {
        frequency: "0 0 * * *".to_string(),
        domain_name: "example.arch".to_string(),
    };
    execute_handler(&mut state, &ctx(ADMIN), msg, None).unwrap();
    let renew = AppExecuteMsg::RenewDomain { task_id: TaskId(0) };
    let r = execute_handler(&mut state, &ctx("intruder"), renew.clone(), Some(AGENT.to_string()));
    assert!(matches!(r, Err(AppError::NotManager { .. })));
    let reply = execute_handler(&mut state, &ctx(AGENT), renew, Some(AGENT.to_string())).unwrap();
    assert_eq!(reply.messages.len(), 1);
    execute_handler(&mut state, &ctx("x"), AppExecuteMsg::Increment {}, None).unwrap();
    match query_handler(&state, &AppQueryMsg::Count {}) {
        Ok(QueryAnswer::Count(c)) => assert_eq!(c.count, 1),
        _ => panic!("expected the count"),
    }
}

#[test]
fn registry_call_attaches_tariff() {
    let terms = RegistryTerms::new("reg".to_string(), "uarch".to_string(), 11);
    let call = registry_call(&terms, vec![1, 2, 3]);
    assert_eq!(call.contract_addr, "reg");
    assert_eq!(call.msg, vec![1, 2, 3]);
    assert_eq!(call.funds.len(), 1);
    assert_eq!(call.funds[0].denom, "uarch");
    assert_eq!(call.funds[0].amount, 11);
}

#[test]
fn cancel_is_unsupported() {
    let mut state = setup();
    create_auto_renewal_task(&mut state, &ctx(ADMIN), "0 0 * * *".to_string(), "example.arch".to_string())
        .unwrap();
    let msg = AppExecuteMsg::CancelAutoRenewalTask { task_id: TaskId(0) };
    assert!(matches!(execute_handler(&mut state, &ctx(ADMIN), msg, None), Err(AppError::Unsupported)));
    assert!(state.tasks.resolve(TaskId(0)).is_ok());
}

#[test]
fn renewal_without_reported_executor() {
    let mut state = setup();
    let msg = AppExecuteMsg::RenewDomain { task_id: TaskId(0) };
    assert!(matches!(execute_handler(&mut state, &ctx(AGENT), msg, None), Err(AppError::ExecutorUnknown)));
}

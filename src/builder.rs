use vstd::prelude::*;

verus! {

/// A quantity of one fungible asset.
pub struct Coin {
    pub denom: String,
    pub amount: u128,
}

impl View for Coin {
    type V = (Seq<char>, u128);

    open spec fn view(&self) -> (Seq<char>, u128) {
        (self.denom@, self.amount)
    }
}

impl Coin {
    pub fn new(denom: String, amount: u128) -> (r: Self)
        ensures
            r@ == (denom@, amount),
    {
        Coin { denom, amount }
    }
}

/// What an outbound contract call amounts to: target, payload, attached funds.
pub struct CallModel {
    pub contract: Seq<char>,
    pub msg: Seq<u8>,
    pub funds: Seq<(Seq<char>, u128)>,
}

/// A call to another contract: its address, the JSON payload and the funds
/// sent along.
pub struct RemoteCall {
    pub contract_addr: String,
    pub msg: Vec<u8>,
    pub funds: Vec<Coin>,
}

impl View for RemoteCall {
    type V = CallModel;

    open spec fn view(&self) -> CallModel {
        CallModel {
            contract: self.contract_addr@,
            msg: self.msg@,
            funds: self.funds@.map_values(|c: Coin| c@),
        }
    }
}

/// Tariff of the name registry for one period (a year) of registration or
/// renewal, in the registry's smallest unit.
pub const COST_PER_PERIOD: u128 = 1000000000000000000;

/// Where the name registry lives and what one period of a name costs there.
pub struct RegistryTerms {
    pub registry_addr: String,
    pub denom: String,
    pub cost_per_period: u128,
}

/// What registry terms amount to: address, denomination, price per period.
pub struct TermsModel {
    pub registry: Seq<char>,
    pub denom: Seq<char>,
    pub cost: u128,
}

impl View for RegistryTerms {
    type V = TermsModel;

    open spec fn view(&self) -> TermsModel {
        TermsModel { registry: self.registry_addr@, denom: self.denom@, cost: self.cost_per_period }
    }
}

impl RegistryTerms {
    pub fn new(registry_addr: String, denom: String, cost_per_period: u128) -> (r: Self)
        ensures
            r@ == (TermsModel { registry: registry_addr@, denom: denom@, cost: cost_per_period }),
    {
        RegistryTerms { registry_addr, denom, cost_per_period }
    }

    pub open spec fn archway_testnet_model() -> TermsModel {
        TermsModel {
            registry: "archway1lr8rstt40s697hqpedv2nvt27f4cuccqwvly9gnvuszxmcevrlns60xw4r"@,
            denom: "aconst"@,
            cost: COST_PER_PERIOD,
        }
    }

    /// The registry deployment on the Archway test network, paid in `aconst`.
    pub fn archway_testnet() -> (r: Self)
        ensures
            r@ == Self::archway_testnet_model(),
    {
        RegistryTerms {
            registry_addr: String::from_str("archway1lr8rstt40s697hqpedv2nvt27f4cuccqwvly9gnvuszxmcevrlns60xw4r"),
            denom: String::from_str("aconst"),
            cost_per_period: COST_PER_PERIOD,
        }
    }
}

#[verifier::external_type_specification]
#[verifier::external_body]
pub struct ExStdError(cosmwasm_std::StdError);

/// The registry's `Register { name }` message, as JSON.
pub uninterp spec fn register_msg(name: Seq<char>) -> Seq<u8>;

/// The registry's `RenewRegistration { name }` message, as JSON.
pub uninterp spec fn renew_msg(name: Seq<char>) -> Seq<u8>;

/// The registry's `ResolveRecord { name }` query, as JSON.
pub uninterp spec fn resolve_msg(name: Seq<char>) -> Seq<u8>;

/// Relies on archid_registry::msg::ExecuteMsg::Register and
/// cosmwasm_std::to_json_vec for the registry's register message; the
/// serializer (serde-json-wasm) returns Ok for struct variants of strings.
#[verifier::external_body]
fn encode_register(name: &String) -> (r: Result<Vec<u8>, cosmwasm_std::StdError>)
    ensures
        r is Ok,
        r is Ok ==> r.unwrap()@ == register_msg(name@),
{
    cosmwasm_std::to_json_vec(&archid_registry::msg::ExecuteMsg::Register { name: name.clone() })
}

/// Relies on archid_registry::msg::ExecuteMsg::RenewRegistration and
/// cosmwasm_std::to_json_vec for the registry's renew message; the
/// serializer (serde-json-wasm) returns Ok for struct variants of strings.
#[verifier::external_body]
fn encode_renew(name: &String) -> (r: Result<Vec<u8>, cosmwasm_std::StdError>)
    ensures
        r is Ok,
        r is Ok ==> r.unwrap()@ == renew_msg(name@),
{
    cosmwasm_std::to_json_vec(&archid_registry::msg::ExecuteMsg::RenewRegistration { name: name.clone() })
}

/// Relies on archid_registry::msg::QueryMsg::ResolveRecord and
/// cosmwasm_std::to_json_vec for the registry's record query; the
/// serializer (serde-json-wasm) returns Ok for struct variants of strings.
#[verifier::external_body]
fn encode_resolve(name: &String) -> (r: Result<Vec<u8>, cosmwasm_std::StdError>)
    ensures
        r is Ok,
        r is Ok ==> r.unwrap()@ == resolve_msg(name@),
{
    cosmwasm_std::to_json_vec(&archid_registry::msg::QueryMsg::ResolveRecord { name: name.clone() })
}

/// The bytes of an encoding that cannot fail.
fn encoded(r: Result<Vec<u8>, cosmwasm_std::StdError>) -> (v: Vec<u8>)
    requires
        r is Ok,
    ensures
        v == r.unwrap(),
{
    match r {
        Ok(v) => v,
        Err(_) => Vec::new(),
    }
}

/// The call that registers `name` for one period under the terms `t`.
pub open spec fn register_call(t: TermsModel, name: Seq<char>) -> CallModel {
    CallModel { contract: t.registry, msg: register_msg(name), funds: seq![(t.denom, t.cost)] }
}

/// The call that renews `name` for one period under the terms `t`.
pub open spec fn renew_call(t: TermsModel, name: Seq<char>) -> CallModel {
    CallModel { contract: t.registry, msg: renew_msg(name), funds: seq![(t.denom, t.cost)] }
}

/// The funds of one period under `terms`.
fn tariff_funds(terms: &RegistryTerms) -> (r: Vec<Coin>)
    ensures
        r@.map_values(|c: Coin| c@) == seq![(terms@.denom, terms@.cost)],
{
    let r = vec![Coin { denom: terms.denom.clone(), amount: terms.cost_per_period }];
    assert(r@.map_values(|c: Coin| c@) =~= seq![(terms@.denom, terms@.cost)]);
    r
}

/// A call to the registry with payload `msg`, paid for one period.
pub fn registry_call(terms: &RegistryTerms, msg: Vec<u8>) -> (r: RemoteCall)
    ensures
        r@ == (CallModel { contract: terms@.registry, msg: msg@, funds: seq![(terms@.denom, terms@.cost)] }),
{
    RemoteCall { contract_addr: terms.registry_addr.clone(), msg, funds: tariff_funds(terms) }
}

/// The call to the registry that registers `name` for one period, paid at
/// the registry's tariff.
pub fn build_register(terms: &RegistryTerms, name: &String) -> (r: RemoteCall)
    ensures
        r@ == register_call(terms@, name@),
{
    registry_call(terms, encoded(encode_register(name)))
}

/// The call to the registry that renews `name` for one period, paid at the
/// same tariff as a registration.
pub fn build_renew(terms: &RegistryTerms, name: &String) -> (r: RemoteCall)
    ensures
        r@ == renew_call(terms@, name@),
{
    registry_call(terms, encoded(encode_renew(name)))
}

/// A registration and a renewal of the same name under the same terms go to
/// the same registry with the same payment, and each call is fixed by the
/// terms and the name alone.
pub proof fn lemma_calls_share_terms(t: TermsModel, name: Seq<char>, other: Seq<char>)
    ensures
        register_call(t, name).contract == renew_call(t, name).contract,
        register_call(t, name).funds == renew_call(t, name).funds,
        name == other ==> register_call(t, name) == register_call(t, other)
            && renew_call(t, name) == renew_call(t, other),
{
}

/// A read-only query to another contract: its address and the JSON payload.
pub struct RemoteQuery {
    pub contract_addr: String,
    pub msg: Vec<u8>,
}

/// The query that asks the registry for the record of `name`.
pub fn build_resolve_query(terms: &RegistryTerms, name: &String) -> (r: RemoteQuery)
    ensures
        r.contract_addr@ == terms@.registry,
        r.msg@ == resolve_msg(name@),
{
    RemoteQuery { contract_addr: terms.registry_addr.clone(), msg: encoded(encode_resolve(name)) }
}

} // verus!


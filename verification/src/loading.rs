use crate::account::{
    Account, AccountModel, AccountSession, AccountSessionModel, MfaFactor, MfaFactorModel,
    RecoveryCode, RecoveryCodeDelivery, RecoveryCodeDeliveryModel, RecoveryCodeModel,
};
use crate::challenge::{LoginChallengeAuthority, RiskChallenge, RiskChallengeModel};
use crate::database::{append_log, Database, DatabaseModel};
use crate::device::{
    Device, DeviceEnrollmentGrant, DeviceEnrollmentGrantModel, DeviceModel, DevicePublicKeyRecord,
    DevicePublicKeyRecordModel, TrustedControllerDevice, TrustedControllerDeviceModel,
};
use crate::session::{
    IdempotencyRecord, PolicyEvaluation, PolicyEvaluationModel, Session, SessionModel,
};
use crate::table::{models, Record, Table};
use vstd::prelude::*;

verus! {

/// A record that holds the key that it is stored under.
pub trait Keyed: Record {
    /// The key of a record.
    spec fn key_of(model: Self::V) -> Seq<char>;

    /// The key of a record.
    fn key(&self) -> (key: &String)
        ensures
            key@ == Self::key_of(self@),
    ;
}

impl Keyed for Account {
    open spec fn key_of(model: AccountModel) -> Seq<char> {
        model.account_id
    }

    fn key(&self) -> (key: &String) {
        &self.account_id
    }
}

impl Keyed for AccountSession {
    open spec fn key_of(model: AccountSessionModel) -> Seq<char> {
        model.account_session_id
    }

    fn key(&self) -> (key: &String) {
        &self.account_session_id
    }
}

impl Keyed for MfaFactor {
    open spec fn key_of(model: MfaFactorModel) -> Seq<char> {
        model.factor_id
    }

    fn key(&self) -> (key: &String) {
        &self.factor_id
    }
}

impl Keyed for RecoveryCode {
    open spec fn key_of(model: RecoveryCodeModel) -> Seq<char> {
        model.recovery_code_id
    }

    fn key(&self) -> (key: &String) {
        &self.recovery_code_id
    }
}

impl Keyed for RecoveryCodeDelivery {
    open spec fn key_of(model: RecoveryCodeDeliveryModel) -> Seq<char> {
        model.delivery_id
    }

    fn key(&self) -> (key: &String) {
        &self.delivery_id
    }
}

impl Keyed for RiskChallenge {
    open spec fn key_of(model: RiskChallengeModel) -> Seq<char> {
        model.risk_challenge_id
    }

    fn key(&self) -> (key: &String) {
        &self.risk_challenge_id
    }
}

impl Keyed for Device {
    open spec fn key_of(model: DeviceModel) -> Seq<char> {
        model.device_id
    }

    fn key(&self) -> (key: &String) {
        &self.device_id
    }
}

impl Keyed for DevicePublicKeyRecord {
    open spec fn key_of(model: DevicePublicKeyRecordModel) -> Seq<char> {
        model.public_key_id
    }

    fn key(&self) -> (key: &String) {
        &self.public_key_id
    }
}

impl Keyed for DeviceEnrollmentGrant {
    open spec fn key_of(model: DeviceEnrollmentGrantModel) -> Seq<char> {
        model.grant_id
    }

    fn key(&self) -> (key: &String) {
        &self.grant_id
    }
}

impl Keyed for TrustedControllerDevice {
    open spec fn key_of(model: TrustedControllerDeviceModel) -> Seq<char> {
        model.trusted_device_id
    }

    fn key(&self) -> (key: &String) {
        &self.trusted_device_id
    }
}

impl Keyed for PolicyEvaluation {
    open spec fn key_of(model: PolicyEvaluationModel) -> Seq<char> {
        model.policy_evaluation_id
    }

    fn key(&self) -> (key: &String) {
        &self.policy_evaluation_id
    }
}

impl Keyed for Session {
    open spec fn key_of(model: SessionModel) -> Seq<char> {
        model.session_id
    }

    fn key(&self) -> (key: &String) {
        &self.session_id
    }
}

/// The rows that were read before the first that could not be: all of them, where all could.
pub open spec fn readable<V>(rows: Seq<Result<V, String>>) -> nat
    decreases rows.len(),
{
    if rows.len() == 0 || rows[0] is Err {
        0
    } else {
        1 + readable(rows.drop_first())
    }
}

/// A row that is loaded into some target.
pub trait Loaded<T>: Sized {
    /// The model of the target.
    type Held;

    /// What a target holds.
    spec fn held(target: T) -> Self::Held;

    /// What a target holds after a row was put into it.
    spec fn put(held: Self::Held, row: Self) -> Self::Held;

    /// Puts a row into a target.
    fn put_into(self, target: &mut T)
        ensures
            Self::held(*final(target)) == Self::put(Self::held(*old(target)), self),
    ;
}

/// What a target holds after the first rows of a list were put into it, in order.
pub open spec fn loaded<T, R: Loaded<T>>(
    held: R::Held,
    rows: Seq<Result<R, String>>,
    count: nat,
) -> R::Held
    decreases count,
{
    if count == 0 {
        held
    } else {
        R::put(loaded::<T, R>(held, rows, (count - 1) as nat), rows[count - 1]->Ok_0)
    }
}

proof fn lemma_readable<V>(rows: Seq<Result<V, String>>, count: nat)
    requires
        count <= rows.len(),
        forall|i: int| 0 <= i < count ==> #[trigger] rows[i] is Ok,
        count == rows.len() || rows[count as int] is Err,
    ensures
        readable(rows) == count,
    decreases rows.len(),
{
    if count > 0 {
        let rest = rows.drop_first();
        assert forall|i: int| 0 <= i < count - 1 implies #[trigger] rest[i] is Ok by {
            assert(rest[i] == rows[i + 1]);
        }
        if count < rows.len() {
            assert(rest[count - 1] == rows[count as int]);
        }
        lemma_readable(rest, (count - 1) as nat);
    }
}

/// Loads rows that were read into a target, up to the first that could not be.
pub fn load_rows<T, R: Loaded<T>>(target: &mut T, rows: Vec<Result<R, String>>) -> (result: Result<
    (),
    String,
>)
    ensures
        R::held(*final(target)) == loaded::<T, R>(R::held(*old(target)), rows@, readable(rows@)),
        result is Ok <==> readable(rows@) == rows@.len(),
        result is Err ==> Some(result->Err_0) == rows@[readable(rows@) as int].err(),
{
    let ghost before = R::held(*target);
    let ghost all = rows@;
    for row in it: rows
        invariant
            it.seq() == all,
            all == rows@,
            before == R::held(*old(target)),
            R::held(*target) == loaded::<T, R>(before, all, it.index() as nat),
            forall|i: int| 0 <= i < it.index() ==> #[trigger] all[i] is Ok,
    {
        assert(row == all[it.index() as int]);
        match row {
            Ok(record) => {
                record.put_into(target);
            },
            Err(reason) => {
                proof {
                    lemma_readable(all, it.index() as nat);
                }
                return Err(reason);
            },
        }
    }
    proof {
        lemma_readable(all, all.len());
    }
    Ok(())
}

/// A record goes into its table under its key.
impl<V: Keyed> Loaded<Table<V>> for V {
    type Held = Map<Seq<char>, V::V>;

    open spec fn held(target: Table<V>) -> Map<Seq<char>, V::V> {
        target@
    }

    open spec fn put(held: Map<Seq<char>, V::V>, row: V) -> Map<Seq<char>, V::V> {
        held.insert(V::key_of(row@), row@)
    }

    fn put_into(self, target: &mut Table<V>) {
        target.insert(self.key().clone(), self);
    }
}

/// An entry goes to the end of its log.
impl<V: Record> Loaded<Vec<V>> for V {
    type Held = Seq<V::V>;

    open spec fn held(target: Vec<V>) -> Seq<V::V> {
        models(target@)
    }

    open spec fn put(held: Seq<V::V>, row: V) -> Seq<V::V> {
        held.push(row@)
    }

    fn put_into(self, target: &mut Vec<V>) {
        append_log(target, self);
    }
}

/// An account goes among the accounts, and its address among the addresses.
impl Loaded<Database> for Account {
    type Held = DatabaseModel;

    open spec fn held(target: Database) -> DatabaseModel {
        target@
    }

    open spec fn put(held: DatabaseModel, row: Account) -> DatabaseModel {
        DatabaseModel {
            accounts: held.accounts.insert(row@.account_id, row@),
            account_by_email: held.account_by_email.insert(row@.email, row@.account_id),
            ..held
        }
    }

    fn put_into(self, target: &mut Database) {
        target.account_by_email.insert(self.email.clone(), self.account_id.clone());
        target.accounts.insert(self.account_id.clone(), self);
    }
}

/// A device goes among the devices, and the record of its key among the keys.
impl Loaded<Database> for (Device, DevicePublicKeyRecord) {
    type Held = DatabaseModel;

    open spec fn held(target: Database) -> DatabaseModel {
        target@
    }

    open spec fn put(held: DatabaseModel, row: (Device, DevicePublicKeyRecord)) -> DatabaseModel {
        DatabaseModel {
            devices: held.devices.insert(row.0@.device_id, row.0@),
            device_public_keys: held.device_public_keys.insert(row.1@.public_key_id, row.1@),
            ..held
        }
    }

    fn put_into(self, target: &mut Database) {
        let (device, key_record) = self;
        target.device_public_keys.insert(key_record.public_key_id.clone(), key_record);
        target.devices.insert(device.device_id.clone(), device);
    }
}

/// The context of a login challenge goes under the name of its challenge.
impl Loaded<Database> for LoginChallengeAuthority {
    type Held = DatabaseModel;

    open spec fn held(target: Database) -> DatabaseModel {
        target@
    }

    open spec fn put(held: DatabaseModel, row: LoginChallengeAuthority) -> DatabaseModel {
        DatabaseModel {
            login_challenge_contexts: held.login_challenge_contexts.insert(
                row@.challenge.risk_challenge_id,
                row@.context,
            ),
            ..held
        }
    }

    fn put_into(self, target: &mut Database) {
        target.login_challenge_contexts.insert(self.challenge.risk_challenge_id, self.context);
    }
}

/// A request that was carried out goes under the key that it was read with.
impl Loaded<Database> for (String, IdempotencyRecord) {
    type Held = DatabaseModel;

    open spec fn held(target: Database) -> DatabaseModel {
        target@
    }

    open spec fn put(held: DatabaseModel, row: (String, IdempotencyRecord)) -> DatabaseModel {
        DatabaseModel {
            session_idempotency: held.session_idempotency.insert(row.0@, row.1@),
            ..held
        }
    }

    fn put_into(self, target: &mut Database) {
        let (key, record) = self;
        target.session_idempotency.insert(key, record);
    }
}

/// Loads accounts that were read, each also under its address.
pub fn load_accounts(
    database: &mut Database,
    rows: Vec<Result<Account, String>>,
) -> (result: Result<(), String>)
    ensures
        final(database)@ == loaded::<Database, Account>(old(database)@, rows@, readable(rows@)),
        result is Ok <==> readable(rows@) == rows@.len(),
        result is Err ==> Some(result->Err_0) == rows@[readable(rows@) as int].err(),
{
    load_rows(database, rows)
}

/// Loads devices that were read, each with the record of its key.
pub fn load_devices(
    database: &mut Database,
    rows: Vec<Result<(Device, DevicePublicKeyRecord), String>>,
) -> (result: Result<(), String>)
    ensures
        final(database)@ == loaded::<Database, (Device, DevicePublicKeyRecord)>(
            old(database)@,
            rows@,
            readable(rows@),
        ),
        result is Ok <==> readable(rows@) == rows@.len(),
        result is Err ==> Some(result->Err_0) == rows@[readable(rows@) as int].err(),
{
    load_rows(database, rows)
}

/// Loads the contexts of login challenges that were read.
pub fn load_login_challenge_contexts(
    database: &mut Database,
    rows: Vec<Result<LoginChallengeAuthority, String>>,
) -> (result: Result<(), String>)
    ensures
        final(database)@ == loaded::<Database, LoginChallengeAuthority>(
            old(database)@,
            rows@,
            readable(rows@),
        ),
        result is Ok <==> readable(rows@) == rows@.len(),
        result is Err ==> Some(result->Err_0) == rows@[readable(rows@) as int].err(),
{
    load_rows(database, rows)
}

/// Loads the requests that were carried out under an idempotency key.
pub fn load_idempotency(
    database: &mut Database,
    rows: Vec<Result<(String, IdempotencyRecord), String>>,
) -> (result: Result<(), String>)
    ensures
        final(database)@ == loaded::<Database, (String, IdempotencyRecord)>(
            old(database)@,
            rows@,
            readable(rows@),
        ),
        result is Ok <==> readable(rows@) == rows@.len(),
        result is Err ==> Some(result->Err_0) == rows@[readable(rows@) as int].err(),
{
    load_rows(database, rows)
}

/// Publishes what a look-up of a risk challenge found: the challenge, or that it is gone.
pub fn publish_looked_up_challenge(
    database: &mut Database,
    challenge_id: &str,
    challenge: &Option<RiskChallenge>,
)
    ensures
        final(database)@ == (DatabaseModel {
            risk_challenges: match *challenge {
                Some(found) => old(database)@.risk_challenges.insert(
                    found@.risk_challenge_id,
                    found@,
                ),
                None => old(database)@.risk_challenges.remove(challenge_id@),
            },
            ..old(database)@
        }),
{
    match challenge {
        Some(found) => {
            database.risk_challenges.insert(found.risk_challenge_id.clone(), found.duplicate());
        },
        None => {
            database.risk_challenges.remove(challenge_id);
        },
    }
}

/// Publishes what a look-up of a login challenge found: the challenge and its context, or that the
/// context is gone.
pub fn publish_looked_up_login(
    database: &mut Database,
    challenge_id: &str,
    authority: &Option<LoginChallengeAuthority>,
)
    ensures
        final(database)@ == match *authority {
            Some(found) => DatabaseModel {
                risk_challenges: old(database)@.risk_challenges.insert(
                    found@.challenge.risk_challenge_id,
                    found@.challenge,
                ),
                login_challenge_contexts: old(database)@.login_challenge_contexts.insert(
                    found@.challenge.risk_challenge_id,
                    found@.context,
                ),
                ..old(database)@
            },
            None => DatabaseModel {
                login_challenge_contexts: old(database)@.login_challenge_contexts.remove(
                    challenge_id@,
                ),
                ..old(database)@
            },
        },
{
    match authority {
        Some(found) => {
            database.risk_challenges.insert(
                found.challenge.risk_challenge_id.clone(),
                found.challenge.duplicate(),
            );
            database.login_challenge_contexts.insert(
                found.challenge.risk_challenge_id.clone(),
                found.context.duplicate(),
            );
        },
        None => {
            database.login_challenge_contexts.remove(challenge_id);
        },
    }
}

/// Every row that was read is in the table afterwards, under its key, unless a later row of the
/// list has the same key.
pub proof fn loaded_rows_are_found<V: Keyed>(
    table: Map<Seq<char>, V::V>,
    rows: Seq<Result<V, String>>,
    count: nat,
    at: int,
)
    requires
        0 <= at < count <= rows.len(),
        forall|i: int|
            at < i < count ==> V::key_of((#[trigger] rows[i])->Ok_0@) != V::key_of(
                rows[at]->Ok_0@,
            ),
    ensures
        ({
            let after = loaded::<Table<V>, V>(table, rows, count);
            let key = V::key_of(rows[at]->Ok_0@);
            after.contains_key(key) && after[key] == rows[at]->Ok_0@
        }),
    decreases count,
{
    if at < count - 1 {
        loaded_rows_are_found(table, rows, (count - 1) as nat, at);
    }
}

/// Whether every table that the server needs was found.
pub open spec fn all_found(found: Seq<bool>) -> bool {
    forall|i: int| 0 <= i < found.len() ==> #[trigger] found[i]
}

/// Refuses a database in which a table that the server needs was not found.
pub fn verify_schema(found: &Vec<bool>) -> (result: Result<(), String>)
    ensures
        result is Ok <==> all_found(found@),
        result is Err ==> result->Err_0@
            == "PostgreSQL V1 schema is missing; apply the frozen 0001 migration first"@,
{
    let mut i: usize = 0;
    while i < found.len()
        invariant
            i <= found.len(),
            forall|k: int| 0 <= k < i ==> #[trigger] found@[k],
        decreases found.len() - i,
    {
        if !found[i] {
            assert(!found@[i as int]);
            return Err(
                "PostgreSQL V1 schema is missing; apply the frozen 0001 migration first".to_owned(),
            );
        }
        i = i + 1;
    }
    Ok(())
}

} // verus!

use vstd::prelude::*;

use crate::address::Address;
use crate::error::ErrorCode;
use crate::fee::{fee_gate, gate_outcome, Transfer};
use crate::operators;
use crate::operators::{add_failure, operators_wf};

verus! {

/// Bytes reserved for the configuration record of an attestation domain.
pub const ATTESTATION_CONFIG_SIZE: usize = 253;

/// What an attestation domain is created with.
#[derive(Clone, Copy, Debug, PartialEq, Eq)]
pub struct InitializeArgs {
    pub attestation_fee: u64,
    pub fee_recipient: Address,
}

/// The configuration of one attestation domain.
#[derive(Clone, Debug, PartialEq, Eq)]
pub struct AttestationConfig {
    /// The admin.
    pub authority: Address,
    /// The operators: at most `MAX_OPERATORS`, none twice.
    pub operators: Vec<Address>,
    /// Number of schemas created.
    pub schema_count: u64,
    /// The fee for one request.
    pub attestation_fee: u64,
    /// Where fees go.
    pub fee_recipient: Address,
    /// Bump seed of the configuration record's address.
    pub bump: u8,
}

/// What stands in the way of a call to the attestation service, or `None`
/// where the call may be made: the caller must have the capability
/// (`permitted`), and the program offered as the service must be the expected
/// one.
pub open spec fn service_guard(permitted: bool, offered: Address, expected: Address) -> Option<
    ErrorCode,
> {
    if !permitted {
        Some(ErrorCode::Unauthorized)
    } else if offered != expected {
        Some(ErrorCode::InvalidSasProgram)
    } else {
        None
    }
}

fn check_service(permitted: bool, offered: &Address, expected: &Address) -> (r: Result<
    (),
    ErrorCode,
>)
    ensures
        match r {
            Ok(()) => service_guard(permitted, *offered, *expected) is None,
            Err(e) => service_guard(permitted, *offered, *expected) == Some(e),
        },
{
    if !permitted {
        Err(ErrorCode::Unauthorized)
    } else if *offered != *expected {
        Err(ErrorCode::InvalidSasProgram)
    } else {
        Ok(())
    }
}

/// What the engine makes of the answer of a collaborator: a failure, whatever
/// its cause, is `ExternalCallFailed`.
pub fn propagate(call_succeeded: bool) -> (r: Result<(), ErrorCode>)
    ensures
        r == if call_succeeded {
            Ok::<(), ErrorCode>(())
        } else {
            Err::<(), ErrorCode>(ErrorCode::ExternalCallFailed)
        },
{
    if call_succeeded {
        Ok(())
    } else {
        Err(ErrorCode::ExternalCallFailed)
    }
}

impl AttestationConfig {
    /// The operators form a bounded set.
    pub open spec fn wf(self) -> bool {
        operators_wf(self.operators@)
    }

    pub open spec fn spec_is_admin(self, key: Address) -> bool {
        self.authority == key
    }

    pub open spec fn spec_is_operator(self, key: Address) -> bool {
        self.operators@.contains(key)
    }

    pub open spec fn spec_is_admin_or_operator(self, key: Address) -> bool {
        self.spec_is_admin(key) || self.spec_is_operator(key)
    }

    /// Every field but the operators is that of `other`.
    pub open spec fn same_but_operators(self, other: AttestationConfig) -> bool {
        &&& self.authority == other.authority
        &&& self.schema_count == other.schema_count
        &&& self.attestation_fee == other.attestation_fee
        &&& self.fee_recipient == other.fee_recipient
        &&& self.bump == other.bump
    }

    /// The configuration of a new attestation domain: `authority` rules it,
    /// nobody acts for it yet, no schema has been created.
    pub fn initialize(authority: Address, args: InitializeArgs, bump: u8) -> (config:
        AttestationConfig)
        ensures
            config.authority == authority,
            config.operators@ == Seq::<Address>::empty(),
            config.schema_count == 0,
            config.attestation_fee == args.attestation_fee,
            config.fee_recipient == args.fee_recipient,
            config.bump == bump,
            config.wf(),
    {
        AttestationConfig {
            authority,
            operators: Vec::new(),
            schema_count: 0,
            attestation_fee: args.attestation_fee,
            fee_recipient: args.fee_recipient,
            bump,
        }
    }

    /// Whether `key` is the admin.
    pub fn is_admin(&self, key: &Address) -> (r: bool)
        ensures
            r == self.spec_is_admin(*key),
    {
        self.authority == *key
    }

    /// Whether `key` is one of the operators.
    pub fn is_operator(&self, key: &Address) -> (r: bool)
        ensures
            r == self.spec_is_operator(*key),
    {
        operators::contains(&self.operators, key)
    }

    /// Whether `key` is the admin or one of the operators.
    pub fn is_admin_or_operator(&self, key: &Address) -> (r: bool)
        ensures
            r == self.spec_is_admin_or_operator(*key),
    {
        self.authority == *key || operators::contains(&self.operators, key)
    }

    /// Sets the fee for one request. Only the admin may.
    pub fn set_attestation_fee(&mut self, caller: &Address, fee: u64) -> (r: Result<(), ErrorCode>)
        ensures
            match r {
                Ok(()) => old(self).spec_is_admin(*caller) && *final(self) == (AttestationConfig {
                    attestation_fee: fee,
                    ..*old(self)
                }),
                Err(e) => e == ErrorCode::Unauthorized && !old(self).spec_is_admin(*caller)
                    && *final(self) == *old(self),
            },
    {
        if !self.is_admin(caller) {
            return Err(ErrorCode::Unauthorized);
        }
        self.attestation_fee = fee;
        Ok(())
    }

    /// Sets where fees go. Only the admin may.
    pub fn set_fee_recipient(&mut self, caller: &Address, recipient: Address) -> (r: Result<
        (),
        ErrorCode,
    >)
        ensures
            match r {
                Ok(()) => old(self).spec_is_admin(*caller) && *final(self) == (AttestationConfig {
                    fee_recipient: recipient,
                    ..*old(self)
                }),
                Err(e) => e == ErrorCode::Unauthorized && !old(self).spec_is_admin(*caller)
                    && *final(self) == *old(self),
            },
    {
        if !self.is_admin(caller) {
            return Err(ErrorCode::Unauthorized);
        }
        self.fee_recipient = recipient;
        Ok(())
    }

    /// Why `caller` cannot make `operator` an operator, or `None` where the
    /// key is added.
    pub open spec fn add_operator_failure(self, caller: Address, operator: Address) -> Option<
        ErrorCode,
    > {
        if !self.spec_is_admin(caller) {
            Some(ErrorCode::Unauthorized)
        } else {
            add_failure(self.operators@, operator)
        }
    }

    /// Makes `operator` an operator. Only the admin may; a full set is
    /// `MaxOperatorsReached`, a key that is in it `OperatorAlreadyExists`.
    /// A refused call leaves the configuration as it was.
    pub fn add_operator(&mut self, caller: &Address, operator: Address) -> (r: Result<
        (),
        ErrorCode,
    >)
        ensures
            match r {
                Ok(()) => old(self).add_operator_failure(*caller, operator) is None
                    && final(self).operators@ == old(self).operators@.push(operator),
                Err(e) => old(self).add_operator_failure(*caller, operator) == Some(e)
                    && *final(self) == *old(self),
            },
            final(self).same_but_operators(*old(self)),
            old(self).wf() ==> final(self).wf(),
    {
        if !self.is_admin(caller) {
            return Err(ErrorCode::Unauthorized);
        }
        if self.operators.len() >= operators::MAX_OPERATORS {
            return Err(ErrorCode::MaxOperatorsReached);
        }
        if operators::contains(&self.operators, &operator) {
            return Err(ErrorCode::OperatorAlreadyExists);
        }
        let _ = operators::add(&mut self.operators, operator);
        Ok(())
    }

    /// Takes `operator` out of the operators. Only the admin may; a key that
    /// is not in the set is `OperatorNotFound`. A refused call leaves the
    /// configuration as it was.
    pub fn remove_operator(&mut self, caller: &Address, operator: &Address) -> (r: Result<
        (),
        ErrorCode,
    >)
        ensures
            match r {
                Ok(()) => old(self).spec_is_admin(*caller) && exists|i: int|
                    0 <= i < old(self).operators@.len() && old(self).operators@[i] == *operator
                        && (forall|j: int| 0 <= j < i ==> old(self).operators@[j] != *operator)
                        && final(self).operators@ == old(self).operators@.remove(i),
                Err(e) => *final(self) == *old(self) && if !old(self).spec_is_admin(*caller) {
                    e == ErrorCode::Unauthorized
                } else {
                    e == ErrorCode::OperatorNotFound && !old(self).spec_is_operator(*operator)
                },
            },
            final(self).same_but_operators(*old(self)),
            old(self).wf() ==> final(self).wf() && (r is Ok ==> !final(self).spec_is_operator(
                *operator,
            )),
    {
        if !self.is_admin(caller) {
            return Err(ErrorCode::Unauthorized);
        }
        if !operators::contains(&self.operators, operator) {
            return Err(ErrorCode::OperatorNotFound);
        }
        let _ = operators::remove(&mut self.operators, operator);
        Ok(())
    }

    /// Takes the request of `payer` for an attestation: the account offered
    /// as destination must be the configured one, and the domain's fee is
    /// charged. Gives the transfer to make, which is none at a fee of zero.
    pub fn request_attestation(
        &self,
        payer: &Address,
        payer_balance: u64,
        destination: &Address,
    ) -> (r: Result<Option<Transfer>, ErrorCode>)
        ensures
            r == gate_outcome(
                self.fee_recipient,
                self.attestation_fee,
                *payer,
                payer_balance,
                *destination,
            ),
    {
        fee_gate(&self.fee_recipient, self.attestation_fee, payer, payer_balance, destination)
    }

    /// Why a credential container or a schema of the given name cannot be
    /// created, or `None` where the attestation service may be asked to:
    /// only the admin may ask, the program offered must be the service, and
    /// the name must not be empty.
    pub open spec fn named_creation_failure(
        self,
        caller: Address,
        offered: Address,
        expected: Address,
        name: Seq<char>,
    ) -> Option<ErrorCode> {
        if service_guard(self.spec_is_admin(caller), offered, expected) is Some {
            service_guard(self.spec_is_admin(caller), offered, expected)
        } else if name.len() == 0 {
            Some(ErrorCode::EmptySchemaName)
        } else {
            None
        }
    }

    /// Decides whether the attestation service is asked to create a
    /// credential container. Only the admin may ask, and the name must not be
    /// empty.
    pub fn create_credential(
        &self,
        caller: &Address,
        offered: &Address,
        expected: &Address,
        name: &str,
    ) -> (r: Result<(), ErrorCode>)
        ensures
            match r {
                Ok(()) => self.named_creation_failure(*caller, *offered, *expected, name@)
                    is None,
                Err(e) => self.named_creation_failure(*caller, *offered, *expected, name@)
                    == Some(e),
            },
    {
        check_service(self.is_admin(caller), offered, expected)?;
        if name.is_empty() {
            return Err(ErrorCode::EmptySchemaName);
        }
        Ok(())
    }

    /// Decides whether the attestation service is asked to create a schema,
    /// and counts the schema where it is. Only the admin may ask, and the name
    /// must not be empty. A refused call leaves the configuration as it was.
    pub fn create_schema(
        &mut self,
        caller: &Address,
        offered: &Address,
        expected: &Address,
        name: &str,
    ) -> (r: Result<(), ErrorCode>)
        requires
            old(self).schema_count < u64::MAX,
        ensures
            match r {
                Ok(()) => old(self).named_creation_failure(
                    *caller,
                    *offered,
                    *expected,
                    name@,
                ) is None && *final(self) == (AttestationConfig {
                    schema_count: (old(self).schema_count + 1) as u64,
                    ..*old(self)
                }),
                Err(e) => old(self).named_creation_failure(
                    *caller,
                    *offered,
                    *expected,
                    name@,
                ) == Some(e) && *final(self) == *old(self),
            },
    {
        check_service(self.is_admin(caller), offered, expected)?;
        if name.is_empty() {
            return Err(ErrorCode::EmptySchemaName);
        }
        self.schema_count = self.schema_count + 1;
        Ok(())
    }

    /// Why an attestation cannot be created, or `None` where the attestation
    /// service may be asked to.
    pub open spec fn create_attestation_failure(
        self,
        caller: Address,
        offered: Address,
        expected: Address,
        expiry: Option<i64>,
        now: i64,
    ) -> Option<ErrorCode> {
        if service_guard(self.spec_is_admin_or_operator(caller), offered, expected) is Some {
            service_guard(self.spec_is_admin_or_operator(caller), offered, expected)
        } else if expiry matches Some(at) && at <= now {
            Some(ErrorCode::ExpirationInPast)
        } else {
            None
        }
    }

    /// Decides whether the attestation service is asked to create an
    /// attestation. Admin and operators may ask; an expiry, where one is
    /// given, must lie after `now`.
    pub fn create_attestation(
        &self,
        caller: &Address,
        offered: &Address,
        expected: &Address,
        expiry: Option<i64>,
        now: i64,
    ) -> (r: Result<(), ErrorCode>)
        ensures
            match r {
                Ok(()) => self.create_attestation_failure(
                    *caller,
                    *offered,
                    *expected,
                    expiry,
                    now,
                ) is None,
                Err(e) => self.create_attestation_failure(
                    *caller,
                    *offered,
                    *expected,
                    expiry,
                    now,
                ) == Some(e),
            },
    {
        check_service(self.is_admin_or_operator(caller), offered, expected)?;
        match expiry {
            Some(at) => {
                if at <= now {
                    return Err(ErrorCode::ExpirationInPast);
                }
            },
            None => {},
        }
        Ok(())
    }

    /// Decides whether the attestation service is asked to close an
    /// attestation. Admin and operators may ask.
    pub fn revoke_attestation(&self, caller: &Address, offered: &Address, expected: &Address) -> (r:
        Result<(), ErrorCode>)
        ensures
            match r {
                Ok(()) => service_guard(
                    self.spec_is_admin_or_operator(*caller),
                    *offered,
                    *expected,
                ) is None,
                Err(e) => service_guard(
                    self.spec_is_admin_or_operator(*caller),
                    *offered,
                    *expected,
                ) == Some(e),
            },
    {
        check_service(self.is_admin_or_operator(caller), offered, expected)
    }
}

} // verus!

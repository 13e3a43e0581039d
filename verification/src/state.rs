use vstd::prelude::*;

use crate::address::Address;
use crate::error::ErrorCode;
use crate::operators;
use crate::operators::{add_failure, operators_wf};

verus! {

/// The fee a domain asks for a request until its price is set.
pub const DEFAULT_MINT_PRICE: u64 = 100;

/// Bytes reserved for the configuration record of a domain.
pub const NON_TRANSFERABLE_PROJECT_SIZE: usize = 654;

/// What a domain is created with.
#[derive(Clone, Debug, Default, PartialEq, Eq)]
pub struct InitializeArgs {
    pub name: String,
    pub symbol: String,
    pub base_uri: String,
}

/// The configuration of one credential domain: who rules it, who may act for
/// it, what a request costs and where the fee goes, and how its tokens are
/// named.
#[derive(Clone, Debug, PartialEq, Eq)]
pub struct ProjectAccount {
    /// The admin.
    pub authority: Address,
    /// The fee for one request.
    pub mint_price: u64,
    /// Where fees go.
    pub destination: Address,
    /// Bump seed of the configuration record's address.
    pub bump: u8,
    /// Bump seed of the collection token's address.
    pub mint_bump: u8,
    /// Number of the token issued last.
    pub last_token_id: u64,
    pub name: String,
    pub symbol: String,
    /// What the content address of every token begins with.
    pub base_uri: String,
    /// The operators: at most `MAX_OPERATORS`, none twice.
    pub operators: Vec<Address>,
}

impl ProjectAccount {
    /// The operators form a bounded set.
    pub open spec fn wf(self) -> bool {
        operators_wf(self.operators@)
    }

    pub open spec fn spec_is_admin(self, key: Address) -> bool {
        self.authority == key
    }

    pub open spec fn spec_is_operator(self, key: Address) -> bool {
        self.operators@.contains(key)
    }

    pub open spec fn spec_is_admin_or_operator(self, key: Address) -> bool {
        self.spec_is_admin(key) || self.spec_is_operator(key)
    }

    /// The configuration of a new domain: `authority` rules it and receives
    /// its fees, nobody acts for it yet, no token has been issued.
    pub fn initialize(
        authority: Address,
        args: InitializeArgs,
        mint_price: u64,
        bump: u8,
        mint_bump: u8,
    ) -> (config: ProjectAccount)
        ensures
            config.authority == authority,
            config.destination == authority,
            config.mint_price == mint_price,
            config.bump == bump,
            config.mint_bump == mint_bump,
            config.last_token_id == 0,
            config.name == args.name,
            config.symbol == args.symbol,
            config.base_uri == args.base_uri,
            config.operators@ == Seq::<Address>::empty(),
            config.wf(),
    {
        ProjectAccount {
            authority,
            mint_price,
            destination: authority,
            bump,
            mint_bump,
            last_token_id: 0,
            name: args.name,
            symbol: args.symbol,
            base_uri: args.base_uri,
            operators: Vec::new(),
        }
    }

    /// Whether `key` is the admin.
    pub fn is_admin(&self, key: &Address) -> (r: bool)
        ensures
            r == self.spec_is_admin(*key),
    {
        self.authority == *key
    }

    /// Whether `key` is one of the operators.
    pub fn is_operator(&self, key: &Address) -> (r: bool)
        ensures
            r == self.spec_is_operator(*key),
    {
        operators::contains(&self.operators, key)
    }

    /// Whether `key` is the admin or one of the operators.
    pub fn is_admin_or_operator(&self, key: &Address) -> (r: bool)
        ensures
            r == self.spec_is_admin_or_operator(*key),
    {
        self.authority == *key || operators::contains(&self.operators, key)
    }

    /// Sets the fee for one request. Only the admin may.
    pub fn set_fee_price(&mut self, caller: &Address, mint_price: u64) -> (r: Result<
        (),
        ErrorCode,
    >)
        ensures
            match r {
                Ok(()) => old(self).spec_is_admin(*caller) && *final(self) == (ProjectAccount {
                    mint_price,
                    ..*old(self)
                }),
                Err(e) => e == ErrorCode::Unauthorized && !old(self).spec_is_admin(*caller)
                    && *final(self) == *old(self),
            },
    {
        if !self.is_admin(caller) {
            return Err(ErrorCode::Unauthorized);
        }
        self.mint_price = mint_price;
        Ok(())
    }

    /// Sets where fees go. Only the admin may.
    pub fn set_destination(&mut self, caller: &Address, destination: Address) -> (r: Result<
        (),
        ErrorCode,
    >)
        ensures
            match r {
                Ok(()) => old(self).spec_is_admin(*caller) && *final(self) == (ProjectAccount {
                    destination,
                    ..*old(self)
                }),
                Err(e) => e == ErrorCode::Unauthorized && !old(self).spec_is_admin(*caller)
                    && *final(self) == *old(self),
            },
    {
        if !self.is_admin(caller) {
            return Err(ErrorCode::Unauthorized);
        }
        self.destination = destination;
        Ok(())
    }

    /// Sets what the content address of every token begins with. Only the
    /// admin may.
    pub fn set_base_uri(&mut self, caller: &Address, uri: String) -> (r: Result<(), ErrorCode>)
        ensures
            match r {
                Ok(()) => old(self).spec_is_admin(*caller) && *final(self) == (ProjectAccount {
                    base_uri: uri,
                    ..*old(self)
                }),
                Err(e) => e == ErrorCode::Unauthorized && !old(self).spec_is_admin(*caller)
                    && *final(self) == *old(self),
            },
    {
        if !self.is_admin(caller) {
            return Err(ErrorCode::Unauthorized);
        }
        self.base_uri = uri;
        Ok(())
    }

    /// Hands the domain to a new admin. Only the admin may.
    pub fn transfer_authority(&mut self, caller: &Address, new_authority: Address) -> (r: Result<
        (),
        ErrorCode,
    >)
        ensures
            match r {
                Ok(()) => old(self).spec_is_admin(*caller) && *final(self) == (ProjectAccount {
                    authority: new_authority,
                    ..*old(self)
                }),
                Err(e) => e == ErrorCode::Unauthorized && !old(self).spec_is_admin(*caller)
                    && *final(self) == *old(self),
            },
    {
        if !self.is_admin(caller) {
            return Err(ErrorCode::Unauthorized);
        }
        self.authority = new_authority;
        Ok(())
    }

    /// Why `caller` cannot make `operator` an operator, or `None` where the
    /// key is added.
    pub open spec fn add_operator_failure(self, caller: Address, operator: Address) -> Option<
        ErrorCode,
    > {
        if !self.spec_is_admin(caller) {
            Some(ErrorCode::Unauthorized)
        } else {
            add_failure(self.operators@, operator)
        }
    }

    /// Makes `operator` an operator. Only the admin may; a full set is
    /// `MaxOperatorsReached`, a key that is in it `OperatorAlreadyExists`.
    /// A refused call leaves the configuration as it was.
    pub fn add_operator(&mut self, caller: &Address, operator: Address) -> (r: Result<
        (),
        ErrorCode,
    >)
        ensures
            match r {
                Ok(()) => old(self).add_operator_failure(*caller, operator) is None && final(self).operators@ == old(self).operators@.push(operator),
                Err(e) => old(self).add_operator_failure(*caller, operator) == Some(e) && *final(self) == *old(self),
            },
            final(self).same_but_operators(*old(self)),
            old(self).wf() ==> final(self).wf(),
    {
        if !self.is_admin(caller) {
            return Err(ErrorCode::Unauthorized);
        }
        if self.operators.len() >= operators::MAX_OPERATORS {
            return Err(ErrorCode::MaxOperatorsReached);
        }
        if operators::contains(&self.operators, &operator) {
            return Err(ErrorCode::OperatorAlreadyExists);
        }
        let _ = operators::add(&mut self.operators, operator);
        Ok(())
    }

    /// Takes `operator` out of the operators. Only the admin may; a key that
    /// is not in the set is `OperatorNotFound`. A refused call leaves the
    /// configuration as it was.
    pub fn remove_operator(&mut self, caller: &Address, operator: &Address) -> (r: Result<
        (),
        ErrorCode,
    >)
        ensures
            match r {
                Ok(()) => old(self).spec_is_admin(*caller) && exists|i: int|
                    0 <= i < old(self).operators@.len() && old(self).operators@[i] == *operator
                        && (forall|j: int| 0 <= j < i ==> old(self).operators@[j] != *operator)
                        && final(self).operators@ == old(self).operators@.remove(i),
                Err(e) => *final(self) == *old(self) && if !old(self).spec_is_admin(*caller) {
                    e == ErrorCode::Unauthorized
                } else {
                    e == ErrorCode::OperatorNotFound && !old(self).spec_is_operator(*operator)
                },
            },
            final(self).same_but_operators(*old(self)),
            old(self).wf() ==> final(self).wf() && (r is Ok ==> !final(self).spec_is_operator(
                *operator,
            )),
    {
        if !self.is_admin(caller) {
            return Err(ErrorCode::Unauthorized);
        }
        if !operators::contains(&self.operators, operator) {
            return Err(ErrorCode::OperatorNotFound);
        }
        let _ = operators::remove(&mut self.operators, operator);
        Ok(())
    }

    /// Every field but the operators is that of `other`.
    pub open spec fn same_but_operators(self, other: ProjectAccount) -> bool {
        &&& self.authority == other.authority
        &&& self.mint_price == other.mint_price
        &&& self.destination == other.destination
        &&& self.bump == other.bump
        &&& self.mint_bump == other.mint_bump
        &&& self.last_token_id == other.last_token_id
        &&& self.name == other.name
        &&& self.symbol == other.symbol
        &&& self.base_uri == other.base_uri
    }
}

} // verus!

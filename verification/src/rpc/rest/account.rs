//! `GET /v2/account/{addr}/balance`: the balance of an account.

use vstd::prelude::*;

use crate::primitives::{AccountAddress, Amount, TokenId};
use crate::rpc::dto::{AccountBalanceDto, TokenBalanceDto};
use crate::rpc::error::RpcResult;
use crate::rpc::rest::backends::QueryBackend;
use crate::rpc::rest::{address_outcome, parse_address};

verus! {

/// Whether the backend answers with `answer` when asked for the native balance
/// of the account with the address `address`.
pub open spec fn balance_asked<Q: QueryBackend + ?Sized>(
    query: &Q,
    address: AccountAddress,
    answer: RpcResult<Amount>,
) -> bool {
    call_ensures(Q::account_balance, (query, &address, &TokenId::Native), answer)
}

/// Whether `r` is the reply where the account at `address` has the balance
/// `answer`.
pub open spec fn balance_reported(
    r: RpcResult<AccountBalanceDto>,
    address: AccountAddress,
    answer: RpcResult<Amount>,
) -> bool {
    match answer {
        Ok(amount) => {
            &&& r is Ok
            &&& r->Ok_0.address == address
            &&& r->Ok_0.balances@ == seq![TokenBalanceDto { token: TokenId::Native, amount }]
        },
        Err(e) => r is Err && r->Err_0 == e,
    }
}

/// The native balance of the account whose address is `addr_hex`.
pub fn account_balance<Q: QueryBackend + ?Sized>(query: &Q, addr_hex: &str) -> (r: RpcResult<AccountBalanceDto>)
    ensures
        match address_outcome(addr_hex@) {
            Err(e) => r is Err && r->Err_0@ == e,
            Ok(bytes) => exists|address: AccountAddress, answer: RpcResult<Amount>|
                {
                    &&& #[trigger] balance_asked(query, address, answer)
                    &&& address@ == bytes
                    &&& balance_reported(r, address, answer)
                },
        },
{
    let address = match parse_address(addr_hex) {
        Ok(address) => address,
        Err(e) => {
            return Err(e);
        },
    };
    let answer = query.account_balance(&address, &TokenId::Native);
    assert(balance_asked(query, address, answer));
    match answer {
        Ok(amount) => {
            let mut balances: Vec<TokenBalanceDto> = Vec::new();
            balances.push(TokenBalanceDto { token: TokenId::Native, amount });
            Ok(AccountBalanceDto { address, balances })
        },
        Err(e) => Err(e),
    }
}

} // verus!

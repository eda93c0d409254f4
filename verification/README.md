# vesting_vault

Time-locked SPL token grants: linear vesting, an optional cliff, and creator
revoke, with every instruction's decision verified with Verus.

- `src/` is the verified library: the vesting arithmetic (`math`), the grant
  record (`state`), the transfer-fee gate for Token-2022 mints (`token_ext`),
  and the create / claim / revoke / close decisions (`instructions`), each with
  a contract and the laws that relate them.
- `app/` is the Anchor program around it: account validation, the clock, and
  the token transfers the library decides on.
- `tests/` exercises the library on concrete values.

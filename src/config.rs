use vstd::prelude::*;

verus! {

/// Table that holds the crash-mode record.
pub const CRASH_TABLE: &'static str = "crash_table";

/// Key of the crash-mode record in its table.
pub const CRASH_KEY: &'static str = "mode";

/// Table of the bank ledger, kept through the ledger client.
pub const BANK_TABLE: &'static str = "bank_table";

/// Table of the inventory ledger, kept through the ledger client.
pub const INVENTORY_TABLE: &'static str = "inventory_table";

/// Bank ledger table written directly, without the ledger client.
pub const BANK_TABLE_REG: &'static str = "bank_table_reg";

/// Inventory ledger table written directly, without the ledger client.
pub const INVENTORY_TABLE_REG: &'static str = "inventory_table_reg";

/// Region of the cloud endpoint.
pub const REGION: &'static str = "us-east-1";

/// Endpoint of the local test instance of the cloud services.
pub const ENDPOINT_URL: &'static str = "http://localhost:4566";

/// Balance that the bank ledger starts with.
pub const BANK_INITIAL_AMOUNT: i32 = 1000;

/// Count that the inventory ledger starts with.
pub const INVENTORY_INITIAL_AMOUNT: i32 = 100;

/// Pause between two invocation attempts, in milliseconds.
pub const RETRY_DELAY_MS: u64 = 5000;

} // verus!

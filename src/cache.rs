use vstd::prelude::*;

use crate::types::CachePolicy;
use crate::worker::CalculationUpdate;

verus! {

/// The character of a decimal digit.
pub open spec fn digit_char(d: nat) -> char {
    if d == 0 { '0' }
    else if d == 1 { '1' }
    else if d == 2 { '2' }
    else if d == 3 { '3' }
    else if d == 4 { '4' }
    else if d == 5 { '5' }
    else if d == 6 { '6' }
    else if d == 7 { '7' }
    else if d == 8 { '8' }
    else { '9' }
}

/// The decimal representation of a number, without leading zeros.
pub open spec fn decimal(n: nat) -> Seq<char>
    decreases n,
{
    if n < 10 {
        seq![digit_char(n)]
    } else {
        decimal(n / 10) + seq![digit_char(n % 10)]
    }
}

/// A path with `name` appended as one more component.
pub open spec fn path_join(base: Seq<char>, name: Seq<char>) -> Seq<char> {
    if base.len() == 0 || base.last() == '/' {
        base + name
    } else {
        base + seq!['/'] + name
    }
}

fn digit_str(d: u64) -> (r: &'static str)
    requires
        d < 10,
    ensures
        r@ == seq![digit_char(d as nat)],
{
    proof {
        reveal_strlit("0");
        reveal_strlit("1");
        reveal_strlit("2");
        reveal_strlit("3");
        reveal_strlit("4");
        reveal_strlit("5");
        reveal_strlit("6");
        reveal_strlit("7");
        reveal_strlit("8");
        reveal_strlit("9");
    }
    if d == 0 { "0" }
    else if d == 1 { "1" }
    else if d == 2 { "2" }
    else if d == 3 { "3" }
    else if d == 4 { "4" }
    else if d == 5 { "5" }
    else if d == 6 { "6" }
    else if d == 7 { "7" }
    else if d == 8 { "8" }
    else { "9" }
}

/// Writes a number in decimal.
pub fn decimal_string(n: u64) -> (r: String)
    ensures
        r@ == decimal(n as nat),
    decreases n,
{
    if n < 10 {
        String::from_str(digit_str(n))
    } else {
        let mut s = decimal_string(n / 10);
        s.append(digit_str(n % 10));
        s
    }
}

/// Appends `name` to `base` as one more path component.
pub fn join_path(base: &str, name: &str) -> (r: String)
    ensures
        r@ == path_join(base@, name@),
{
    let mut s = String::from_str(base);
    let n = base.unicode_len();
    if n == 0 || base.get_char(n - 1) == '/' {
        s.append(name);
    } else {
        proof {
            reveal_strlit("/");
        }
        s.append("/");
        s.append(name);
    }
    s
}

/// The lower-case hexadecimal digit of a nibble.
pub open spec fn hex_char(d: nat) -> char {
    if d < 10 {
        digit_char(d)
    } else if d == 10 { 'a' }
    else if d == 11 { 'b' }
    else if d == 12 { 'c' }
    else if d == 13 { 'd' }
    else if d == 14 { 'e' }
    else { 'f' }
}

/// Bytes in lower-case hexadecimal, two digits each.
pub open spec fn hex(bytes: Seq<u8>) -> Seq<char>
    decreases bytes.len(),
{
    if bytes.len() == 0 {
        seq![]
    } else {
        hex(bytes.drop_last()) + seq![hex_char((bytes.last() / 16) as nat), hex_char((bytes.last() % 16) as nat)]
    }
}

fn hex_str(d: u8) -> (r: &'static str)
    requires
        d < 16,
    ensures
        r@ == seq![hex_char(d as nat)],
{
    proof {
        reveal_strlit("a");
        reveal_strlit("b");
        reveal_strlit("c");
        reveal_strlit("d");
        reveal_strlit("e");
        reveal_strlit("f");
    }
    if d < 10 { digit_str(d as u64) }
    else if d == 10 { "a" }
    else if d == 11 { "b" }
    else if d == 12 { "c" }
    else if d == 13 { "d" }
    else if d == 14 { "e" }
    else { "f" }
}

/// The file name of a transaction's receipt: its hash as `0x` and 64
/// lower-case hexadecimal digits, then `.json`.
pub open spec fn receipt_file_name(tx_hash: Seq<u8>) -> Seq<char> {
    "0x"@ + hex(tx_hash) + ".json"@
}

/// Writes the file name of a transaction's receipt.
pub fn receipt_file(tx_hash: &[u8; 32]) -> (r: String)
    ensures
        r@ == receipt_file_name(tx_hash@),
{
    let mut s = String::from_str("0x");
    let mut i: usize = 0;
    while i < 32
        invariant
            i <= 32,
            tx_hash@.len() == 32,
            s@ == "0x"@ + hex(tx_hash@.take(i as int)),
        decreases 32 - i,
    {
        let b = tx_hash[i];
        assert(tx_hash@.take(i + 1).drop_last() =~= tx_hash@.take(i as int));
        assert(tx_hash@.take(i + 1).last() == b);
        s.append(hex_str(b / 16));
        s.append(hex_str(b % 16));
        assert(s@ =~= "0x"@ + hex(tx_hash@.take(i + 1)));
        i = i + 1;
    }
    assert(tx_hash@.take(32) =~= tx_hash@);
    s.append(".json");
    s
}

/// The files of one block's cache entry.
#[derive(Clone, Debug)]
pub struct BlockCachePaths {
    pub dir: String,
    pub block_json: String,
    pub execution_witness_json: String,
    pub receipts_dir: String,
}

/// Which files of one block's cache entry exist.
#[derive(Clone, Copy, Debug, PartialEq, Eq, Structural)]
pub struct EntryFiles {
    pub block_json: bool,
    pub execution_witness_json: bool,
}

/// The directory of a block's entry under the cache root.
pub open spec fn entry_dir(root: Seq<char>, block_number: u64) -> Seq<char> {
    path_join(path_join(root, "blocks"@), decimal(block_number as nat))
}

/// The on-disk cache of RPC responses, one directory per block:
/// `<root>/blocks/<n>/` holds `block.json`, `execution_witness.json` and
/// `receipts/<tx hash>.json`.
#[derive(Clone, Debug)]
pub struct CacheStorage {
    pub root: String,
}

impl CacheStorage {
    pub fn new(root: String) -> (r: CacheStorage)
        ensures
            r.root@ == root@,
    {
        CacheStorage { root }
    }

    /// The paths of the entry of `block_number`.
    pub fn block_paths(&self, block_number: u64) -> (r: BlockCachePaths)
        ensures
            r.dir@ == entry_dir(self.root@, block_number),
            r.block_json@ == path_join(r.dir@, "block.json"@),
            r.execution_witness_json@ == path_join(r.dir@, "execution_witness.json"@),
            r.receipts_dir@ == path_join(r.dir@, "receipts"@),
    {
        let n = decimal_string(block_number);
        let blocks = join_path(self.root.as_str(), "blocks");
        let dir = join_path(blocks.as_str(), n.as_str());
        let block_json = join_path(dir.as_str(), "block.json");
        let execution_witness_json = join_path(dir.as_str(), "execution_witness.json");
        let receipts_dir = join_path(dir.as_str(), "receipts");
        BlockCachePaths { dir, block_json, execution_witness_json, receipts_dir }
    }

    /// The path of the receipt of the transaction with hash `tx_hash` in the
    /// entry of `block_number`.
    pub fn receipt_path(&self, block_number: u64, tx_hash: &[u8; 32]) -> (r: String)
        ensures
            r@ == path_join(
                path_join(entry_dir(self.root@, block_number), "receipts"@),
                receipt_file_name(tx_hash@),
            ),
    {
        let paths = self.block_paths(block_number);
        let name = receipt_file(tx_hash);
        join_path(paths.receipts_dir.as_str(), name.as_str())
    }

    /// Whether an entry is complete: both its block and its witness are
    /// present. Receipts are optional side data.
    pub fn has_cached_block(&self, files: &EntryFiles) -> (r: bool)
        ensures
            r == (files.block_json && files.execution_witness_json),
    {
        files.block_json && files.execution_witness_json
    }
}

/// Observes the update stream and prunes the cache as its policy asks.
#[derive(Clone, Copy, Debug)]
pub struct CacheManager {
    pub cache_policy: CachePolicy,
}

/// The entry that the manager removes on seeing `update` under `policy`:
/// that of a successfully completed block, when the policy prunes on success.
pub open spec fn pruned_entry(policy: CachePolicy, update: CalculationUpdate) -> Option<u64> {
    if update.spec_completes_block() && policy.spec_prunes_on_success() {
        Some(update.spec_block_number())
    } else {
        None
    }
}

/// The complete entries of the cache after the manager has acted.
pub open spec fn after_pruning(complete: Set<u64>, removal: Option<u64>) -> Set<u64> {
    match removal {
        Some(n) => complete.remove(n),
        None => complete,
    }
}

impl CacheManager {
    pub fn new(cache_policy: CachePolicy) -> (r: CacheManager)
        ensures
            r.cache_policy == cache_policy,
    {
        CacheManager { cache_policy }
    }

    /// Takes one update. Returns the entry to remove before the update is
    /// passed on, and the update itself, unchanged: every update is
    /// forwarded, whatever its kind.
    pub fn observe(&self, update: CalculationUpdate) -> (r: (Option<u64>, CalculationUpdate))
        ensures
            r.0 == pruned_entry(self.cache_policy, update),
            r.1 == update,
    {
        let removal = if update.completes_block() && self.cache_policy.prunes_on_success() {
            Some(update.block_number())
        } else {
            None
        };
        (removal, update)
    }
}

/// Under the `OnFailure` policy, once the manager has acted on an update that
/// completes block `n`, the cache holds no complete entry for `n`, whatever it
/// held before; under the other policies the manager removes nothing.
pub proof fn lemma_completed_blocks_are_pruned(
    complete: Set<u64>,
    policy: CachePolicy,
    update: CalculationUpdate,
)
    ensures
        policy == CachePolicy::OnFailure && update.spec_completes_block() ==> !after_pruning(
            complete,
            pruned_entry(policy, update),
        ).contains(update.spec_block_number()),
        policy != CachePolicy::OnFailure ==> after_pruning(complete, pruned_entry(policy, update))
            == complete,
{
}

} // verus!

use crate::config::{Config, ConfigView, PoolInfo, PoolInfoView};
use crate::decimal::{append_decimal, decimal_text};
use crate::rate::HashRate;
use crate::solver::Solution;
use vstd::prelude::*;

verus! {

/// The address to connect to: the pool's host, a colon, its port.
pub open spec fn address_text(pool: PoolInfoView) -> Seq<char> {
    pool.ip + ":"@ + decimal_text(pool.port as nat)
}

/// The line that asks for a job: the word `JOB`, the user's name, the
/// difficulty selector and the mining key, separated by commas and ended by
/// a newline.
pub open spec fn job_request_text(config: ConfigView) -> Seq<char> {
    "JOB,"@ + config.username + ","@ + config.difficulty + ","@ + config.mining_key + "\n"@
}

/// The line that submits a share: the nonce, the rate in hashes per second
/// with two decimal places, the client's name, the rig's identifier and the
/// identifier of this run, separated by commas and ended by a newline.
pub open spec fn submission_text(solution: Solution, rig: Seq<char>, run_id: u32) -> Seq<char> {
    decimal_text(solution.nonce as nat) + ","@ + (HashRate {
        hashes: solution.nonce,
        micros: solution.elapsed_us,
    }).plain_text() + ",RustMiner,"@ + rig + ","@ + decimal_text(run_id as nat) + "\n"@
}

/// Composes the address to connect to.
pub fn pool_address(pool: &PoolInfo) -> (address: String)
    ensures
        address@ == address_text(pool@),
{
    let mut address = pool.ip.clone();
    address.append(":");
    append_decimal(pool.port as u128, &mut address);
    address
}

/// Composes the line that asks the pool for a job.
pub fn job_request(config: &Config) -> (line: String)
    ensures
        line@ == job_request_text(config@),
{
    let mut line = String::from_str("JOB,");
    line.append(config.username.as_str());
    line.append(",");
    line.append(config.difficulty.as_str());
    line.append(",");
    line.append(config.mining_key.as_str());
    line.append("\n");
    line
}

/// Composes the line that submits a solution.
pub fn submission(solution: &Solution, rig_identifier: &str, run_id: u32) -> (line: String)
    ensures
        line@ == submission_text(*solution, rig_identifier@, run_id),
{
    let mut line = String::new();
    append_decimal(solution.nonce as u128, &mut line);
    line.append(",");
    let rate = HashRate::of_solution(solution).to_plain_string();
    line.append(rate.as_str());
    line.append(",RustMiner,");
    line.append(rig_identifier);
    line.append(",");
    append_decimal(run_id as u128, &mut line);
    line.append("\n");
    assert(line@ =~= submission_text(*solution, rig_identifier@, run_id));
    line
}

} // verus!

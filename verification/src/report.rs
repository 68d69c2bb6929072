//! The saved record of a find: a plain text block with the address, the two
//! key encodings, and the figures of the search that produced it, labelled
//! and ordered as the files this tool has always written.

use vstd::prelude::*;
use vstd::string::StringExecFns;
use crate::text::{spec_decimal, spec_grouped, decimal_string, format_number};

verus! {

/// The exact text of the record, as a function of the find, the search
/// parameters, the figures and the generation timestamp. Counters appear
/// grouped in threes; elapsed seconds and the thread count appear plain.
pub open spec fn spec_report(
    address: Seq<char>,
    private_key: Seq<char>,
    public_key: Seq<char>,
    prefix: Seq<char>,
    thread_count: nat,
    total_attempts: nat,
    elapsed_seconds: nat,
    rate: nat,
    timestamp: Seq<char>,
) -> Seq<char> {
    "Bitcoin Vanity Address\n========================\n\nAdresse Bitcoin: "@ + address
        + "\nClé privée (WIF): "@ + private_key + "\nClé publique: "@ + public_key
        + "\n\nStatistiques\n-----------\nPréfixe recherché: "@ + prefix
        + "\nNombre de threads: "@ + spec_decimal(thread_count) + "\nTentatives totales: "@
        + spec_grouped(spec_decimal(total_attempts)) + "\nTemps de recherche: "@ + spec_decimal(
        elapsed_seconds,
    ) + "s\nVitesse moyenne: "@ + spec_grouped(spec_decimal(rate))
        + " addr/s\n\nGénéré le: "@ + timestamp + "\n========================\n"@
}

/// Renders the record for a find.
pub fn render_report(
    address: &str,
    private_key: &str,
    public_key: &str,
    prefix: &str,
    thread_count: u64,
    total_attempts: u64,
    elapsed_seconds: u64,
    rate: u64,
    timestamp: &str,
) -> (r: String)
    ensures
        r@ == spec_report(
            address@,
            private_key@,
            public_key@,
            prefix@,
            thread_count as nat,
            total_attempts as nat,
            elapsed_seconds as nat,
            rate as nat,
            timestamp@,
        ),
{
    let mut r = String::from_str(
        "Bitcoin Vanity Address\n========================\n\nAdresse Bitcoin: ",
    );
    r.append(address);
    r.append("\nClé privée (WIF): ");
    r.append(private_key);
    r.append("\nClé publique: ");
    r.append(public_key);
    r.append("\n\nStatistiques\n-----------\nPréfixe recherché: ");
    r.append(prefix);
    r.append("\nNombre de threads: ");
    let threads = decimal_string(thread_count);
    r.append(threads.as_str());
    r.append("\nTentatives totales: ");
    let attempts = format_number(total_attempts);
    r.append(attempts.as_str());
    r.append("\nTemps de recherche: ");
    let elapsed = decimal_string(elapsed_seconds);
    r.append(elapsed.as_str());
    r.append("s\nVitesse moyenne: ");
    let speed = format_number(rate);
    r.append(speed.as_str());
    r.append(" addr/s\n\nGénéré le: ");
    r.append(timestamp);
    r.append("\n========================\n");
    r
}

} // verus!

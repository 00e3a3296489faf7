//! Attestation checking: the measurement field of a SEV-SNP quote sits at
//! byte offset 0x90, 48 bytes long; verification is a case-insensitive hex
//! comparison of that field against the expected launch measurement. The
//! RPC call that obtains the quote is the embedding application's; the
//! checking here is pure.

use vstd::prelude::*;
use vstd::slice::slice_subrange;

use crate::errors::HypervisorError;
use crate::hexstr::{hex_decode, hex_encode, spec_hex_decode, spec_hex_encode, spec_hex_valid};
use crate::strutil::{spec_eq_nocase, str_eq_ignore_ascii_case};

verus! {

/// Verifier of attestation quotes against an expected measurement.
pub struct AttestationVerifier;

/// The fields of the guest's `tee_generateQuote` response.
pub struct QuoteResponse {
    pub quote: String,
    pub block_number: u64,
    pub block_hash: String,
    pub state_root: String,
}

/// The outcome of one attestation check.
pub struct AttestationResult {
    pub verified: bool,
    pub expected_measurement: String,
    pub actual_measurement: String,
    pub block_number: u64,
    pub block_hash: String,
    pub state_root: String,
    pub quote_hex: String,
}

/// `s` with every leading `0x` pair removed.
pub open spec fn spec_strip_0x(s: Seq<char>) -> Seq<char>
    decreases s.len(),
{
    if s.len() >= 2 && s[0] == '0' && s[1] == 'x' {
        spec_strip_0x(s.skip(2))
    } else {
        s
    }
}

/// The measurement field of a decoded attestation report: bytes
/// [0x90, 0x90 + 48).
pub open spec fn spec_report_measurement(report: Seq<u8>) -> Seq<u8> {
    report.subrange(144, 192)
}

fn strip_0x(s: &str) -> (r: &str)
    ensures
        r@ == spec_strip_0x(s@),
{
    let mut cur: &str = s;
    while cur.unicode_len() >= 2 && cur.get_char(0) == '0' && cur.get_char(1) == 'x'
        invariant
            spec_strip_0x(s@) == spec_strip_0x(cur@),
        decreases cur@.len(),
    {
        let len = cur.unicode_len();
        let next = cur.substring_char(2, len);
        proof {
            assert(next@ =~= cur@.skip(2));
        }
        cur = next;
    }
    cur
}

impl AttestationVerifier {
    pub fn new() -> (r: Self)
        ensures
            true,
    {
        AttestationVerifier
    }

    /// Extracts the measurement from a hex-encoded attestation report: strip
    /// any `0x` prefix, hex-decode, require at least 192 bytes, and render
    /// bytes [0x90, 0x90 + 48) back as lowercase hex. A short or undecodable
    /// report is an error, never a mismatch.
    pub fn extract_measurement_from_report(report_hex: &str) -> (r: Result<
        String,
        HypervisorError,
    >)
        ensures
            ({
                let stripped = spec_strip_0x(report_hex@);
                &&& ((r is Ok) <==> (spec_hex_valid(stripped) && spec_hex_decode(stripped).len()
                    >= 192))
                &&& (match r {
                    Ok(m) => m@ == spec_hex_encode(
                        spec_report_measurement(spec_hex_decode(stripped)),
                    ),
                    Err(HypervisorError::AttestationFailed(_)) => true,
                    Err(_) => false,
                })
            }),
    {
        let stripped = strip_0x(report_hex);
        let report_bytes = match hex_decode(stripped) {
            Some(b) => b,
            None => {
                return Err(
                    HypervisorError::AttestationFailed(
                        "attestation report is not valid hex".to_owned(),
                    ),
                );
            },
        };
        if report_bytes.len() < 192 {
            return Err(
                HypervisorError::AttestationFailed(
                    "attestation report too small: expected at least 192 bytes".to_owned(),
                ),
            );
        }
        let measurement_bytes = slice_subrange(report_bytes.as_slice(), 144, 192);
        Ok(hex_encode(measurement_bytes))
    }

    /// Checks one quote against the expected measurement: `verified` holds
    /// exactly when the quote's measurement field equals the expectation up
    /// to ASCII case; blockchain context fields are carried through.
    pub fn verify_quote(&self, quote: &QuoteResponse, expected_measurement: &str) -> (r: Result<
        AttestationResult,
        HypervisorError,
    >)
        ensures
            ({
                let stripped = spec_strip_0x(quote.quote@);
                let decodable = spec_hex_valid(stripped) && spec_hex_decode(stripped).len() >= 192;
                let actual = spec_hex_encode(spec_report_measurement(spec_hex_decode(stripped)));
                &&& ((r is Ok) <==> decodable)
                &&& (match r {
                    Ok(res) => {
                        &&& res.verified == spec_eq_nocase(actual, expected_measurement@)
                        &&& res.actual_measurement@ == actual
                        &&& res.expected_measurement@ == expected_measurement@
                        &&& res.block_number == quote.block_number
                        &&& res.block_hash@ == quote.block_hash@
                        &&& res.state_root@ == quote.state_root@
                        &&& res.quote_hex@ == quote.quote@
                    },
                    Err(HypervisorError::AttestationFailed(_)) => true,
                    Err(_) => false,
                })
            }),
    {
        let actual_measurement = match Self::extract_measurement_from_report(
            quote.quote.as_str(),
        ) {
            Ok(m) => m,
            Err(e) => {
                return Err(e);
            },
        };
        let verified = str_eq_ignore_ascii_case(
            actual_measurement.as_str(),
            expected_measurement,
        );
        Ok(
            AttestationResult {
                verified,
                expected_measurement: expected_measurement.to_owned(),
                actual_measurement,
                block_number: quote.block_number,
                block_hash: quote.block_hash.clone(),
                state_root: quote.state_root.clone(),
                quote_hex: quote.quote.clone(),
            },
        )
    }
}

} // verus!

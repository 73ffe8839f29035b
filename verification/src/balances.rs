use vstd::prelude::*;

verus! {

/// A Solana account address, carried opaquely to the RPC call.
#[verifier::external_type_specification]
#[verifier::external_body]
pub struct ExPubkey(solana_sdk::pubkey::Pubkey);

/// The error `Pubkey::from_str` reports for a malformed string.
#[verifier::external_type_specification]
#[verifier::external_body]
pub struct ExParsePubkeyError(solana_sdk::pubkey::ParsePubkeyError);

/// Whether a string is a well-formed Solana public key: base-58 text of at
/// most 44 bytes that decodes to exactly 32 bytes, as `Pubkey::from_str`
/// accepts it.
pub uninterp spec fn is_valid_pubkey(s: Seq<char>) -> bool;

/// Relies on solana_sdk::pubkey::Pubkey::from_str: the outcome is a function
/// of the string alone, and parsing succeeds exactly on well-formed base-58
/// public keys.
#[verifier::external_body]
fn parse_pubkey_str(s: &str) -> (r: Result<
    solana_sdk::pubkey::Pubkey,
    solana_sdk::pubkey::ParsePubkeyError,
>)
    ensures
        r is Ok <==> is_valid_pubkey(s@),
{
    <solana_sdk::pubkey::Pubkey as core::str::FromStr>::from_str(s)
}

/// Checks one public-key string from the balance query: the parsed key,
/// ready for the RPC lookup, or `None` for a malformed one, which the route
/// skips silently.
pub fn check_pubkey(s: &str) -> (r: Option<solana_sdk::pubkey::Pubkey>)
    ensures
        r is Some <==> is_valid_pubkey(s@),
{
    match parse_pubkey_str(s) {
        Ok(key) => Some(key),
        Err(_) => None,
    }
}

/// How many lamports make one SOL.
pub const LAMPORTS_PER_SOL: u64 = 1000000000;

/// The decimal digit character for `d` below ten.
pub open spec fn digit_char(d: nat) -> char
    recommends
        d < 10,
{
    if d == 0 {
        '0'
    } else if d == 1 {
        '1'
    } else if d == 2 {
        '2'
    } else if d == 3 {
        '3'
    } else if d == 4 {
        '4'
    } else if d == 5 {
        '5'
    } else if d == 6 {
        '6'
    } else if d == 7 {
        '7'
    } else if d == 8 {
        '8'
    } else {
        '9'
    }
}

/// The decimal digits of `n`, most significant first, without leading zeros.
pub open spec fn dec_digits(n: nat) -> Seq<char>
    decreases n,
{
    if n < 10 {
        seq![digit_char(n)]
    } else {
        dec_digits(n / 10) + seq![digit_char(n % 10)]
    }
}

/// The lowest `width` decimal digits of `n`, zero-padded on the left.
pub open spec fn padded_digits(n: nat, width: nat) -> Seq<char>
    decreases width,
{
    if width == 0 {
        Seq::empty()
    } else {
        padded_digits(n / 10, (width - 1) as nat) + seq![digit_char(n % 10)]
    }
}

/// The fractional field of an amount: the `width`-digit zero-padded digits of
/// `frac` with the trailing zeros removed.
pub open spec fn fraction_digits(frac: nat, width: nat) -> Seq<char>
    decreases width,
{
    if width == 0 {
        Seq::empty()
    } else if frac % 10 == 0 {
        fraction_digits(frac / 10, (width - 1) as nat)
    } else {
        padded_digits(frac, width)
    }
}

/// A lamport amount rendered in whole SOL: the integer part and, when the
/// amount is not whole, a dot and the fraction with trailing zeros trimmed.
/// 1500000000 lamports render as `1.5`; 2000000000 as `2`.
pub open spec fn sol_amount_text(lamports: u64) -> Seq<char> {
    let whole = lamports as nat / (LAMPORTS_PER_SOL as nat);
    let frac = lamports as nat % (LAMPORTS_PER_SOL as nat);
    if frac == 0 {
        dec_digits(whole)
    } else {
        dec_digits(whole) + "."@ + fraction_digits(frac, 9)
    }
}

/// The one-character string for a decimal digit.
fn digit_str(d: u64) -> (r: &'static str)
    requires
        d < 10,
    ensures
        r@ == seq![digit_char(d as nat)],
{
    proof {
        reveal_strlit("0");
        reveal_strlit("1");
        reveal_strlit("2");
        reveal_strlit("3");
        reveal_strlit("4");
        reveal_strlit("5");
        reveal_strlit("6");
        reveal_strlit("7");
        reveal_strlit("8");
        reveal_strlit("9");
    }
    let r = if d == 0 {
        "0"
    } else if d == 1 {
        "1"
    } else if d == 2 {
        "2"
    } else if d == 3 {
        "3"
    } else if d == 4 {
        "4"
    } else if d == 5 {
        "5"
    } else if d == 6 {
        "6"
    } else if d == 7 {
        "7"
    } else if d == 8 {
        "8"
    } else {
        "9"
    };
    proof {
        assert(r@ =~= seq![digit_char(d as nat)]);
    }
    r
}

/// Renders `n` in decimal.
pub fn decimal_string(n: u64) -> (r: String)
    ensures
        r@ == dec_digits(n as nat),
    decreases n,
{
    if n < 10 {
        digit_str(n).to_owned()
    } else {
        let mut s = decimal_string(n / 10);
        s.append(digit_str(n % 10));
        s
    }
}

/// Renders the lowest `width` decimal digits of `n`, zero-padded.
fn padded_string(n: u64, width: u64) -> (r: String)
    ensures
        r@ == padded_digits(n as nat, width as nat),
    decreases width,
{
    if width == 0 {
        String::new()
    } else {
        let mut s = padded_string(n / 10, width - 1);
        s.append(digit_str(n % 10));
        s
    }
}

/// Renders the fractional field of an amount, trailing zeros trimmed.
fn fraction_string(frac: u64, width: u64) -> (r: String)
    ensures
        r@ == fraction_digits(frac as nat, width as nat),
    decreases width,
{
    if width == 0 {
        String::new()
    } else if frac % 10 == 0 {
        fraction_string(frac / 10, width - 1)
    } else {
        padded_string(frac, width)
    }
}

/// Renders a lamport balance in whole SOL.
pub fn sol_amount_string(lamports: u64) -> (r: String)
    ensures
        r@ == sol_amount_text(lamports),
{
    let whole = lamports / LAMPORTS_PER_SOL;
    let frac = lamports % LAMPORTS_PER_SOL;
    if frac == 0 {
        decimal_string(whole)
    } else {
        let mut s = decimal_string(whole);
        s.append(".");
        let fraction = fraction_string(frac, 9);
        s.append(fraction.as_str());
        s
    }
}

/// One line of the balance listing: `<key>: <amount> SOL`.
pub open spec fn entry_text(key: Seq<char>, lamports: u64) -> Seq<char> {
    key + ": "@ + sol_amount_text(lamports) + " SOL"@
}

/// Builds the listing line for one key with a positive balance; a zero
/// balance yields nothing, as the route omits empty accounts.
pub fn balance_entry(key: &str, lamports: u64) -> (r: Option<String>)
    ensures
        lamports == 0 ==> r is None,
        lamports > 0 ==> (r matches Some(line) && line@ == entry_text(key@, lamports)),
{
    if lamports == 0 {
        None
    } else {
        let mut line = key.to_owned();
        line.append(": ");
        let amount = sol_amount_string(lamports);
        line.append(amount.as_str());
        line.append(" SOL");
        Some(line)
    }
}

/// The per-key outcome of a balance lookup.
pub enum LookupOutcome {
    /// The string did not parse as a public key; the entry is skipped.
    InvalidKey,
    /// The RPC call for this key failed; the entry is skipped.
    Unavailable,
    /// The account's balance, in lamports.
    Lamports(u64),
}

/// What the balance route learned about one requested key.
pub struct BalanceReport {
    /// The public-key string exactly as the caller sent it.
    pub key: String,
    /// What the lookup yielded for it.
    pub lookup: LookupOutcome,
}

/// The lines one report contributes: one for a positive balance, none for an
/// invalid key, a failed lookup, or an empty account.
pub open spec fn report_lines(r: BalanceReport) -> Seq<Seq<char>> {
    match r.lookup {
        LookupOutcome::Lamports(l) => if l > 0 {
            seq![entry_text(r.key@, l)]
        } else {
            Seq::empty()
        },
        _ => Seq::empty(),
    }
}

/// The listing the balance route owes for a sequence of per-key outcomes:
/// each report's lines, in input order, with skipped entries simply absent.
pub open spec fn balance_lines(reports: Seq<BalanceReport>) -> Seq<Seq<char>>
    decreases reports.len(),
{
    if reports.len() == 0 {
        Seq::empty()
    } else {
        report_lines(reports[0]) + balance_lines(reports.drop_first())
    }
}

/// The listing respects input order: the lines for a run of reports stand
/// before the lines for everything after it, so kept entries appear exactly
/// in the order their keys were sent, and skipped entries leave no hole.
pub proof fn lemma_balance_lines_ordered(prefix: Seq<BalanceReport>, suffix: Seq<BalanceReport>)
    ensures
        balance_lines(prefix + suffix) == balance_lines(prefix) + balance_lines(suffix),
    decreases prefix.len(),
{
    if prefix.len() == 0 {
        assert(prefix + suffix =~= suffix);
        assert(balance_lines(prefix) + balance_lines(suffix) =~= balance_lines(suffix));
    } else {
        assert((prefix + suffix).drop_first() =~= prefix.drop_first() + suffix);
        lemma_balance_lines_ordered(prefix.drop_first(), suffix);
        assert(report_lines(prefix[0]) + (balance_lines(prefix.drop_first()) + balance_lines(
            suffix,
        )) =~= (report_lines(prefix[0]) + balance_lines(prefix.drop_first())) + balance_lines(
            suffix,
        ));
    }
}

/// The balance lookup is idempotent: two listings built from the same per-key
/// outcomes are the same listing.
pub proof fn lemma_balances_idempotent(
    reports: Seq<BalanceReport>,
    r1: Seq<Seq<char>>,
    r2: Seq<Seq<char>>,
)
    requires
        r1 == balance_lines(reports),
        r2 == balance_lines(reports),
    ensures
        r1 == r2,
{
}

/// Builds the balance listing for the reports gathered over one request:
/// one `<key>: <amount> SOL` line per key with a positive balance, in input
/// order; invalid keys, failed lookups and zero balances are omitted.
pub fn collect_balances(reports: &Vec<BalanceReport>) -> (r: Vec<String>)
    ensures
        r@.map_values(|line: String| line@) == balance_lines(reports@),
{
    let mut out: Vec<String> = Vec::new();
    let mut i: usize = 0;
    while i < reports.len()
        invariant
            i <= reports.len(),
            out@.map_values(|line: String| line@) == balance_lines(reports@.take(i as int)),
        decreases reports.len() - i,
    {
        proof {
            assert(reports@.take(i as int + 1) =~= reports@.take(i as int).push(reports@[i as int]));
            lemma_balance_lines_ordered(reports@.take(i as int), seq![reports@[i as int]]);
            assert(reports@.take(i as int).push(reports@[i as int]) =~= reports@.take(i as int)
                + seq![reports@[i as int]]);
            let ghost single = seq![reports@[i as int]];
            assert(single.len() == 1 && single[0] == reports@[i as int]);
            assert(single.drop_first() =~= Seq::<BalanceReport>::empty());
            assert(balance_lines(single.drop_first()) =~= Seq::<Seq<char>>::empty());
            assert(balance_lines(single) =~= report_lines(reports@[i as int]) + balance_lines(
                single.drop_first(),
            ));
            assert(balance_lines(single) =~= report_lines(reports@[i as int]));
        }
        let report = &reports[i];
        match &report.lookup {
            LookupOutcome::Lamports(l) => {
                if *l > 0 {
                    match balance_entry(report.key.as_str(), *l) {
                        Some(line) => {
                            let ghost prev = out@;
                            out.push(line);
                            proof {
                                assert(out@.map_values(|line: String| line@) =~= prev.map_values(
                                    |line: String| line@,
                                ) + report_lines(reports@[i as int]));
                            }
                        },
                        None => {
                            proof {
                                assert(false);
                            }
                        },
                    }
                }
            },
            _ => {},
        }
        i += 1;
    }
    proof {
        assert(reports@.take(reports.len() as int) =~= reports@);
    }
    out
}

} // verus!

use vstd::prelude::*;

verus! {

/// Fuel budget of the `Low` compute tier.
pub const LOW_FUEL: u64 = 100_000_000;

/// Fuel budget of the `Medium` compute tier.
pub const MEDIUM_FUEL: u64 = 2_000_000_000;

/// Fuel budget of the `High` compute tier.
pub const HIGH_FUEL: u64 = 50_000_000_000;

/// Compute tier of a policy: a named fuel budget or a custom one.
#[derive(Debug, Clone, Copy, PartialEq, Eq, Structural)]
pub enum Compute {
    Low,
    Medium,
    High,
    Custom(i64),
}

/// The fuel budget of a tier; a negative custom budget has none.
pub open spec fn fuel_of(c: Compute) -> Option<u64> {
    match c {
        Compute::Low => Some(LOW_FUEL),
        Compute::Medium => Some(MEDIUM_FUEL),
        Compute::High => Some(HIGH_FUEL),
        Compute::Custom(n) => if n >= 0 { Some(n as u64) } else { None },
    }
}

/// The tier that a fuel budget stands for: a named tier when the budget is
/// one of theirs, else a custom one; none when it does not fit an `i64`.
pub open spec fn compute_of(fuel: u64) -> Option<Compute> {
    if fuel == LOW_FUEL {
        Some(Compute::Low)
    } else if fuel == MEDIUM_FUEL {
        Some(Compute::Medium)
    } else if fuel == HIGH_FUEL {
        Some(Compute::High)
    } else if fuel <= i64::MAX as u64 {
        Some(Compute::Custom(fuel as i64))
    } else {
        None
    }
}

impl Compute {
    /// The integer fuel budget of this tier, `None` for a negative custom budget.
    pub fn as_fuel(&self) -> (r: Option<u64>)
        ensures
            r == fuel_of(*self),
    {
        match self {
            Compute::Low => Some(LOW_FUEL),
            Compute::Medium => Some(MEDIUM_FUEL),
            Compute::High => Some(HIGH_FUEL),
            Compute::Custom(n) => if *n >= 0 {
                Some(*n as u64)
            } else {
                None
            },
        }
    }

    /// The tier's fuel figure in decimal (see `fuel_figure`).
    pub fn to_string(&self) -> (r: String)
        ensures
            r@ == signed_decimal(fuel_figure(*self)),
    {
        let (negative, magnitude): (bool, u64) = match self {
            Compute::Low => (false, LOW_FUEL),
            Compute::Medium => (false, MEDIUM_FUEL),
            Compute::High => (false, HIGH_FUEL),
            Compute::Custom(n) => if *n < 0 {
                (true, ((-(*n as i128)) as u64))
            } else {
                (false, *n as u64)
            },
        };
        let digits = decimal_digits(magnitude);
        let mut out = String::new();
        if negative {
            out.append("-");
            proof {
                reveal_strlit("-");
            }
        }
        let mut i: usize = 0;
        while i < digits.len()
            invariant
                i <= digits@.len(),
                forall|j: int| 0 <= j < digits@.len() ==> '0' <= #[trigger] digits@[j] <= '9',
                out@ == (if negative {
                    seq!['-']
                } else {
                    Seq::<char>::empty()
                }) + digits@.subrange(0, i as int),
            decreases digits@.len() - i,
        {
            let one = digit_text(digits[i]);
            out.append(one.as_str());
            i += 1;
            assert(digits@.subrange(0, i as int) =~= digits@.subrange(0, i - 1).push(digits@[i - 1]));
        }
        assert(digits@.subrange(0, digits@.len() as int) =~= digits@);
        out
    }

    /// The tier for a fuel budget (see `compute_of`).
    pub fn from_fuel(fuel: u64) -> (r: Option<Compute>)
        ensures
            r == compute_of(fuel),
    {
        if fuel == LOW_FUEL {
            Some(Compute::Low)
        } else if fuel == MEDIUM_FUEL {
            Some(Compute::Medium)
        } else if fuel == HIGH_FUEL {
            Some(Compute::High)
        } else if fuel <= i64::MAX as u64 {
            Some(Compute::Custom(fuel as i64))
        } else {
            None
        }
    }
}

/// The decimal digit of a value below ten.
pub open spec fn digit_char(d: nat) -> char {
    if d == 0 {
        '0'
    } else if d == 1 {
        '1'
    } else if d == 2 {
        '2'
    } else if d == 3 {
        '3'
    } else if d == 4 {
        '4'
    } else if d == 5 {
        '5'
    } else if d == 6 {
        '6'
    } else if d == 7 {
        '7'
    } else if d == 8 {
        '8'
    } else {
        '9'
    }
}

/// The decimal numeral of a natural number, without leading zeros.
pub open spec fn decimal(n: nat) -> Seq<char>
    decreases n,
{
    if n < 10 {
        seq![digit_char(n)]
    } else {
        decimal(n / 10).push(digit_char(n % 10))
    }
}

/// The decimal numeral of an integer, with `-` before a negative one.
pub open spec fn signed_decimal(n: int) -> Seq<char> {
    if n < 0 {
        seq!['-'] + decimal((-n) as nat)
    } else {
        decimal(n as nat)
    }
}

/// The fuel figure that names a tier: its budget, or the custom integer as given.
pub open spec fn fuel_figure(c: Compute) -> int {
    match c {
        Compute::Low => LOW_FUEL as int,
        Compute::Medium => MEDIUM_FUEL as int,
        Compute::High => HIGH_FUEL as int,
        Compute::Custom(n) => n as int,
    }
}

fn digit(d: u64) -> (c: char)
    requires
        d < 10,
    ensures
        c == digit_char(d as nat),
{
    if d == 0 {
        '0'
    } else if d == 1 {
        '1'
    } else if d == 2 {
        '2'
    } else if d == 3 {
        '3'
    } else if d == 4 {
        '4'
    } else if d == 5 {
        '5'
    } else if d == 6 {
        '6'
    } else if d == 7 {
        '7'
    } else if d == 8 {
        '8'
    } else {
        '9'
    }
}

/// The decimal digits of `n`.
fn decimal_digits(n: u64) -> (r: Vec<char>)
    ensures
        r@ == decimal(n as nat),
        forall|i: int| 0 <= i < r@.len() ==> '0' <= #[trigger] r@[i] <= '9',
{
    let mut out: Vec<char> = Vec::new();
    let mut cur = n;
    while cur >= 10
        invariant
            decimal(n as nat) == decimal(cur as nat) + out@,
            forall|i: int| 0 <= i < out@.len() ==> '0' <= #[trigger] out@[i] <= '9',
        decreases cur,
    {
        let d = digit(cur % 10);
        let ghost before = out@;
        out.insert(0, d);
        assert(decimal(cur as nat) == decimal((cur / 10) as nat).push(digit_char((cur % 10) as nat)));
        assert(decimal((cur / 10) as nat).push(d) + before =~= decimal((cur / 10) as nat) + out@);
        cur = cur / 10;
    }
    let ghost before = out@;
    out.insert(0, digit(cur));
    assert(decimal(cur as nat) + before =~= out@);
    out
}

/// The one-character string of a decimal digit.
fn digit_text(c: char) -> (r: String)
    requires
        '0' <= c <= '9',
    ensures
        r@ == seq![c],
{
    proof {
        reveal_strlit("0");
        reveal_strlit("1");
        reveal_strlit("2");
        reveal_strlit("3");
        reveal_strlit("4");
        reveal_strlit("5");
        reveal_strlit("6");
        reveal_strlit("7");
        reveal_strlit("8");
        reveal_strlit("9");
    }
    let r = if c == '0' {
        String::from_str("0")
    } else if c == '1' {
        String::from_str("1")
    } else if c == '2' {
        String::from_str("2")
    } else if c == '3' {
        String::from_str("3")
    } else if c == '4' {
        String::from_str("4")
    } else if c == '5' {
        String::from_str("5")
    } else if c == '6' {
        String::from_str("6")
    } else if c == '7' {
        String::from_str("7")
    } else if c == '8' {
        String::from_str("8")
    } else {
        String::from_str("9")
    };
    assert(r@ =~= seq![c]);
    r
}

/// Going from a tier to its fuel budget and back gives the tier again, for
/// every named tier and for every non-negative custom budget that is not
/// the budget of a named tier.
pub proof fn lemma_tier_fuel_round_trip(c: Compute)
    requires
        fuel_of(c) is Some,
        c is Custom ==> fuel_of(c) != Some(LOW_FUEL) && fuel_of(c) != Some(MEDIUM_FUEL)
            && fuel_of(c) != Some(HIGH_FUEL),
    ensures
        compute_of(fuel_of(c)->0) == Some(c),
{
}

/// Going from a fuel budget that fits an `i64` to its tier and back gives the
/// budget again.
pub proof fn lemma_fuel_tier_round_trip(fuel: u64)
    requires
        fuel <= i64::MAX as u64,
    ensures
        compute_of(fuel) is Some,
        fuel_of(compute_of(fuel)->0) == Some(fuel),
{
}

/// Declarative resource envelope of one task.
///
/// The builder methods refine a policy in place: `Some` sets a field,
/// `None` leaves it as it was.
#[derive(Debug, Clone)]
pub struct ExecutionPolicy {
    pub name: String,
    pub compute: Compute,
    /// Byte ceiling of guest memory.
    pub ram: Option<i64>,
    /// Wall-clock bound of a run, in milliseconds.
    pub timeout: Option<i64>,
    pub max_retries: i64,
    /// `KEY=VALUE` entries, in order.
    pub env_vars: Option<Vec<String>>,
    /// Path roots that the guest may open.
    pub allowed_files: Vec<String>,
    /// Host patterns that the guest may reach.
    pub allowed_hosts: Vec<String>,
}

/// The policy that `ExecutionPolicy::new` gives.
pub open spec fn is_default_policy(p: ExecutionPolicy) -> bool {
    &&& p.name@ == "default"@
    &&& p.compute == Compute::Low
    &&& p.ram is None
    &&& p.timeout is None
    &&& p.max_retries == 1
    &&& p.env_vars is None
    &&& p.allowed_files@.len() == 0
    &&& p.allowed_hosts@.len() == 0
}

impl Default for ExecutionPolicy {
    fn default() -> (r: Self)
        ensures
            is_default_policy(r),
    {
        ExecutionPolicy {
            name: String::from_str("default"),
            compute: Compute::Low,
            ram: None,
            timeout: None,
            max_retries: 1,
            env_vars: None,
            allowed_files: Vec::new(),
            allowed_hosts: Vec::new(),
        }
    }
}

impl ExecutionPolicy {
    pub fn new() -> (r: Self)
        ensures
            is_default_policy(r),
    {
        ExecutionPolicy::default()
    }

    /// The run deadline in milliseconds; a negative timeout sets none.
    pub fn deadline_ms(&self) -> (r: Option<u64>)
        ensures
            r == match self.timeout {
                Some(t) => if t >= 0 {
                    Some(t as u64)
                } else {
                    None
                },
                None => None,
            },
    {
        match self.timeout {
            Some(t) => if t >= 0 {
                Some(t as u64)
            } else {
                None
            },
            None => None,
        }
    }

    pub fn name(self, name: Option<String>) -> (r: Self)
        ensures
            r == (match name {
                Some(n) => ExecutionPolicy { name: n, ..self },
                None => self,
            }),
    {
        let mut p = self;
        if let Some(n) = name {
            p.name = n;
        }
        p
    }

    pub fn compute(self, compute: Option<Compute>) -> (r: Self)
        ensures
            r == (match compute {
                Some(c) => ExecutionPolicy { compute: c, ..self },
                None => self,
            }),
    {
        let mut p = self;
        if let Some(c) = compute {
            p.compute = c;
        }
        p
    }

    pub fn ram(self, ram: Option<i64>) -> (r: Self)
        ensures
            r == (match ram {
                Some(b) => ExecutionPolicy { ram: Some(b), ..self },
                None => self,
            }),
    {
        let mut p = self;
        if let Some(b) = ram {
            p.ram = Some(b);
        }
        p
    }

    pub fn timeout(self, timeout: Option<i64>) -> (r: Self)
        ensures
            r == (match timeout {
                Some(t) => ExecutionPolicy { timeout: Some(t), ..self },
                None => self,
            }),
    {
        let mut p = self;
        if let Some(t) = timeout {
            p.timeout = Some(t);
        }
        p
    }

    pub fn max_retries(self, max_retries: Option<i64>) -> (r: Self)
        ensures
            r == (match max_retries {
                Some(m) => ExecutionPolicy { max_retries: m, ..self },
                None => self,
            }),
    {
        let mut p = self;
        if let Some(m) = max_retries {
            p.max_retries = m;
        }
        p
    }

    pub fn env_vars(self, env_vars: Option<Vec<String>>) -> (r: Self)
        ensures
            r == (match env_vars {
                Some(v) => ExecutionPolicy { env_vars: Some(v), ..self },
                None => self,
            }),
    {
        let mut p = self;
        if let Some(v) = env_vars {
            p.env_vars = Some(v);
        }
        p
    }

    pub fn allowed_files(self, allowed_files: Option<Vec<String>>) -> (r: Self)
        ensures
            r == (match allowed_files {
                Some(v) => ExecutionPolicy { allowed_files: v, ..self },
                None => self,
            }),
    {
        let mut p = self;
        if let Some(v) = allowed_files {
            p.allowed_files = v;
        }
        p
    }

    pub fn allowed_hosts(self, allowed_hosts: Option<Vec<String>>) -> (r: Self)
        ensures
            r == (match allowed_hosts {
                Some(v) => ExecutionPolicy { allowed_hosts: v, ..self },
                None => self,
            }),
    {
        let mut p = self;
        if let Some(v) = allowed_hosts {
            p.allowed_hosts = v;
        }
        p
    }
}

} // verus!

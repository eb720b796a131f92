//! The middleware's settings: where it listens, and how it names the NATS
//! stream, consumer and subjects. The values come from the command line or
//! the environment (read outside this crate); the defaults are here.

use vstd::prelude::*;

verus! {

/// The decimal digit `d` as a character.
pub open spec fn digit_char(d: nat) -> char {
    if d == 0 {
        '0'
    } else if d == 1 {
        '1'
    } else if d == 2 {
        '2'
    } else if d == 3 {
        '3'
    } else if d == 4 {
        '4'
    } else if d == 5 {
        '5'
    } else if d == 6 {
        '6'
    } else if d == 7 {
        '7'
    } else if d == 8 {
        '8'
    } else {
        '9'
    }
}

/// The decimal numeral of `n`, without leading zeros.
pub open spec fn decimal(n: nat) -> Seq<char>
    decreases n,
{
    if n < 10 {
        seq![digit_char(n)]
    } else {
        decimal(n / 10) + seq![digit_char(n % 10)]
    }
}

/// The text `a.b.c.d:port` of an IPv4 address and a port.
pub open spec fn socket_address_text(host: Seq<u8>, port: u16) -> Seq<char> {
    decimal(host[0] as nat) + seq!['.'] + decimal(host[1] as nat) + seq!['.'] + decimal(
        host[2] as nat,
    ) + seq!['.'] + decimal(host[3] as nat) + seq![':'] + decimal(port as nat)
}

/// A NATS subject made of a prefix, a dot and a terminal id.
pub open spec fn subject_of(prefix: Seq<char>, tid: Seq<char>) -> Seq<char> {
    prefix + seq!['.'] + tid
}

fn digit_str(d: u16) -> (s: &'static str)
    requires
        d < 10,
    ensures
        s@ == seq![digit_char(d as nat)],
{
    if d == 0 {
        proof { reveal_strlit("0"); }
        "0"
    } else if d == 1 {
        proof { reveal_strlit("1"); }
        "1"
    } else if d == 2 {
        proof { reveal_strlit("2"); }
        "2"
    } else if d == 3 {
        proof { reveal_strlit("3"); }
        "3"
    } else if d == 4 {
        proof { reveal_strlit("4"); }
        "4"
    } else if d == 5 {
        proof { reveal_strlit("5"); }
        "5"
    } else if d == 6 {
        proof { reveal_strlit("6"); }
        "6"
    } else if d == 7 {
        proof { reveal_strlit("7"); }
        "7"
    } else if d == 8 {
        proof { reveal_strlit("8"); }
        "8"
    } else {
        proof { reveal_strlit("9"); }
        "9"
    }
}

fn append_decimal(s: &mut String, n: u16)
    ensures
        final(s)@ == old(s)@ + decimal(n as nat),
    decreases n,
{
    if n >= 10 {
        append_decimal(s, n / 10);
    }
    s.append(digit_str(n % 10));
    assert(final(s)@ =~= old(s)@ + decimal(n as nat));
}

fn append_literal(s: &mut String, c: &str)
    ensures
        final(s)@ == old(s)@ + c@,
{
    s.append(c);
}

/// Where the middleware listens for ECR machines.
pub struct AppConfig {
    /// The IPv4 address, as its four octets.
    pub host: [u8; 4],
    pub port: u16,
}

impl AppConfig {
    /// The address to bind, written `a.b.c.d:port` in decimal.
    pub fn bind_address(&self) -> (addr: String)
        ensures
            addr@ == socket_address_text(self.host@, self.port),
    {
        proof {
            reveal_strlit(".");
            reveal_strlit(":");
        }
        let mut s = String::new();
        append_decimal(&mut s, self.host[0] as u16);
        append_literal(&mut s, ".");
        append_decimal(&mut s, self.host[1] as u16);
        append_literal(&mut s, ".");
        append_decimal(&mut s, self.host[2] as u16);
        append_literal(&mut s, ".");
        append_decimal(&mut s, self.host[3] as u16);
        append_literal(&mut s, ":");
        append_decimal(&mut s, self.port);
        assert(s@ =~= socket_address_text(self.host@, self.port));
        s
    }
}

impl Default for AppConfig {
    /// Listens on 0.0.0.0, port 8080.
    fn default() -> (c: AppConfig)
        ensures
            c.host@ == seq![0u8, 0u8, 0u8, 0u8],
            c.port == 8080,
    {
        let c = AppConfig { host: [0, 0, 0, 0], port: 8080 };
        assert(c.host@ =~= seq![0u8, 0u8, 0u8, 0u8]);
        c
    }
}

/// The subject prefixes of the two directions of traffic.
pub struct Topic {
    /// Prefix of the subjects that ECR messages are published on.
    pub ecr: String,
    /// Prefix of the subjects that POS replies arrive on.
    pub pos: String,
}

fn join_subject(prefix: &String, tid: &str) -> (s: String)
    ensures
        s@ == subject_of(prefix@, tid@),
{
    proof {
        reveal_strlit(".");
    }
    let mut s = prefix.clone();
    s.append(".");
    s.append(tid);
    s
}

impl Topic {
    /// The subject that a message from terminal `tid` is published on.
    pub fn ecr_subject(&self, tid: &str) -> (s: String)
        ensures
            s@ == subject_of(self.ecr@, tid@),
    {
        join_subject(&self.ecr, tid)
    }

    /// The subject that the reply for terminal `tid` comes on.
    pub fn pos_subject(&self, tid: &str) -> (s: String)
        ensures
            s@ == subject_of(self.pos@, tid@),
    {
        join_subject(&self.pos, tid)
    }
}

impl Default for Topic {
    /// `events.ecr` and `events.pos`.
    fn default() -> (t: Topic)
        ensures
            t.ecr@ == "events.ecr"@,
            t.pos@ == "events.pos"@,
    {
        Topic { ecr: String::from_str("events.ecr"), pos: String::from_str("events.pos") }
    }
}

/// The durable pull consumer that POS replies are read from.
pub struct Consumer {
    pub durable_name: String,
    pub filter_subject: String,
}

impl Default for Consumer {
    /// `middleware-processor`, filtering `events.pos.>`.
    fn default() -> (c: Consumer)
        ensures
            c.durable_name@ == "middleware-processor"@,
            c.filter_subject@ == "events.pos.>"@,
    {
        Consumer {
            durable_name: String::from_str("middleware-processor"),
            filter_subject: String::from_str("events.pos.>"),
        }
    }
}

/// The NATS server, the JetStream stream, and the names used on it.
pub struct NatsConfig {
    pub url: String,
    pub stream: String,
    pub subjects: String,
    pub topic: Topic,
    pub consumer: Consumer,
}

impl Default for NatsConfig {
    /// `nats://127.0.0.1:4222`, stream `EVENTS` over `events.>`, and the
    /// default topic and consumer.
    fn default() -> (c: NatsConfig)
        ensures
            c.url@ == "nats://127.0.0.1:4222"@,
            c.stream@ == "EVENTS"@,
            c.subjects@ == "events.>"@,
            c.topic.ecr@ == "events.ecr"@,
            c.topic.pos@ == "events.pos"@,
            c.consumer.durable_name@ == "middleware-processor"@,
            c.consumer.filter_subject@ == "events.pos.>"@,
    {
        NatsConfig {
            url: String::from_str("nats://127.0.0.1:4222"),
            stream: String::from_str("EVENTS"),
            subjects: String::from_str("events.>"),
            topic: Topic::default(),
            consumer: Consumer::default(),
        }
    }
}

/// All the settings.
pub struct Config {
    pub app: AppConfig,
    pub nats: NatsConfig,
}

impl Default for Config {
    /// The defaults of each part.
    fn default() -> (c: Config)
        ensures
            c.app.host@ == seq![0u8, 0u8, 0u8, 0u8],
            c.app.port == 8080,
            c.nats.url@ == "nats://127.0.0.1:4222"@,
            c.nats.stream@ == "EVENTS"@,
            c.nats.subjects@ == "events.>"@,
            c.nats.topic.ecr@ == "events.ecr"@,
            c.nats.topic.pos@ == "events.pos"@,
            c.nats.consumer.durable_name@ == "middleware-processor"@,
            c.nats.consumer.filter_subject@ == "events.pos.>"@,
    {
        Config { app: AppConfig::default(), nats: NatsConfig::default() }
    }
}

/// Whether `c` is one of the characters '0' to '9'.
pub open spec fn is_digit(c: char) -> bool {
    48 <= c as int <= 57
}

/// The number that a string of decimal digits denotes, read in base 10
/// with the most significant digit first.
pub open spec fn numeral_value(s: Seq<char>) -> int
    decreases s.len(),
{
    if s.len() == 0 {
        0
    } else {
        numeral_value(s.drop_last()) * 10 + (s.last() as int - 48)
    }
}

/// A decimal numeral: at least one digit, only digits, and no leading zero
/// unless it is "0" itself.
pub open spec fn is_numeral(s: Seq<char>) -> bool {
    &&& s.len() > 0
    &&& forall|i: int| 0 <= i < s.len() ==> is_digit(#[trigger] s[i])
    &&& (s[0] as int == 48 ==> s.len() == 1)
}

proof fn lemma_digit_char(d: nat)
    requires
        d < 10,
    ensures
        is_digit(digit_char(d)),
        digit_char(d) as int - 48 == d,
{
}

/// `decimal(n)` is the base-10 numeral of `n`: only digits, no leading
/// zero unless `n` is 0, and its digits read in base 10 give `n` back.
pub proof fn lemma_decimal_is_numeral(n: nat)
    ensures
        is_numeral(decimal(n)),
        numeral_value(decimal(n)) == n,
    decreases n,
{
    if n < 10 {
        lemma_digit_char(n);
        assert(decimal(n).drop_last() =~= Seq::<char>::empty());
        assert(numeral_value(decimal(n).drop_last()) == 0);
    } else {
        lemma_decimal_is_numeral(n / 10);
        lemma_digit_char(n % 10);
        let d = decimal(n);
        let front = decimal(n / 10);
        assert(d.drop_last() =~= front);
        assert(d.last() == digit_char(n % 10));
        assert(n == (n / 10) * 10 + n % 10) by {
            vstd::arithmetic::div_mod::lemma_fundamental_div_mod(n as int, 10);
        }
        assert(numeral_value(d) == numeral_value(front) * 10 + (d.last() as int - 48));
        assert(d[0] == front[0]);
        assert forall|i: int| 0 <= i < d.len() implies is_digit(#[trigger] d[i]) by {
            if i < front.len() {
                assert(d[i] == front[i]);
            }
        }
        if front[0] as int == 48 {
            assert(front.len() == 1);
            assert(numeral_value(front.drop_last()) == 0);
            assert(numeral_value(front) == 0);
        }
    }
}

/// Different numbers have different numerals.
pub proof fn lemma_decimal_injective(m: nat, n: nat)
    ensures
        decimal(m) == decimal(n) <==> m == n,
{
    lemma_decimal_is_numeral(m);
    lemma_decimal_is_numeral(n);
}

/// `t` splits at positions `i1`, `i2`, `i3` (each a '.') and `i4` (a ':')
/// into five decimal numerals that denote the four octets of `host` and
/// `port`, in that order.
pub open spec fn reads_as_address(
    t: Seq<char>,
    host: Seq<u8>,
    port: u16,
    i1: int,
    i2: int,
    i3: int,
    i4: int,
) -> bool {
    &&& 0 < i1 < i2 < i3 < i4 < t.len() - 1
    &&& t[i1] == '.' && t[i2] == '.' && t[i3] == '.' && t[i4] == ':'
    &&& is_numeral(t.subrange(0, i1))
    &&& is_numeral(t.subrange(i1 + 1, i2))
    &&& is_numeral(t.subrange(i2 + 1, i3))
    &&& is_numeral(t.subrange(i3 + 1, i4))
    &&& is_numeral(t.subrange(i4 + 1, t.len() as int))
    &&& numeral_value(t.subrange(0, i1)) == host[0]
    &&& numeral_value(t.subrange(i1 + 1, i2)) == host[1]
    &&& numeral_value(t.subrange(i2 + 1, i3)) == host[2]
    &&& numeral_value(t.subrange(i3 + 1, i4)) == host[3]
    &&& numeral_value(t.subrange(i4 + 1, t.len() as int)) == port
}

/// The listen address reads back: it splits at a '.', a '.', a '.' and a
/// ':' into five decimal numerals, and these denote the four octets of the
/// host and the port, in that order.
pub proof fn lemma_address_reads_back(host: Seq<u8>, port: u16)
    requires
        host.len() == 4,
    ensures
        exists|i1: int, i2: int, i3: int, i4: int|
            #[trigger] reads_as_address(socket_address_text(host, port), host, port, i1, i2, i3, i4),
{
    let d0 = decimal(host[0] as nat);
    let d1 = decimal(host[1] as nat);
    let d2 = decimal(host[2] as nat);
    let d3 = decimal(host[3] as nat);
    let d4 = decimal(port as nat);
    lemma_decimal_is_numeral(host[0] as nat);
    lemma_decimal_is_numeral(host[1] as nat);
    lemma_decimal_is_numeral(host[2] as nat);
    lemma_decimal_is_numeral(host[3] as nat);
    lemma_decimal_is_numeral(port as nat);
    let t = socket_address_text(host, port);
    let i1 = d0.len() as int;
    let i2 = i1 + 1 + d1.len();
    let i3 = i2 + 1 + d2.len();
    let i4 = i3 + 1 + d3.len();
    assert(t =~= d0 + seq!['.'] + d1 + seq!['.'] + d2 + seq!['.'] + d3 + seq![':'] + d4);
    assert(t.len() == i4 + 1 + d4.len());
    assert(t[i1] == '.');
    assert(t[i2] == '.');
    assert(t[i3] == '.');
    assert(t[i4] == ':');
    assert(t.subrange(0, i1) =~= d0);
    assert(t.subrange(i1 + 1, i2) =~= d1);
    assert(t.subrange(i2 + 1, i3) =~= d2);
    assert(t.subrange(i3 + 1, i4) =~= d3);
    assert(t.subrange(i4 + 1, t.len() as int) =~= d4);
    assert(reads_as_address(t, host, port, i1, i2, i3, i4));
}

/// A subject is the prefix, one dot, and the whole terminal id, unchanged:
/// its length is theirs plus one, it starts with the prefix, the dot
/// follows, and the rest is the id.
pub proof fn lemma_subject_parts(prefix: Seq<char>, tid: Seq<char>)
    ensures
        subject_of(prefix, tid).len() == prefix.len() + 1 + tid.len(),
        subject_of(prefix, tid).subrange(0, prefix.len() as int) == prefix,
        subject_of(prefix, tid)[prefix.len() as int] == '.',
        subject_of(prefix, tid).subrange(
            prefix.len() as int + 1,
            subject_of(prefix, tid).len() as int,
        ) == tid,
{
    let s = subject_of(prefix, tid);
    assert(s.subrange(0, prefix.len() as int) =~= prefix);
    assert(s.subrange(prefix.len() as int + 1, s.len() as int) =~= tid);
}

/// Under one prefix, different terminals get different subjects, so the
/// subject names the terminal.
pub proof fn lemma_subject_distinguishes_terminals(prefix: Seq<char>, t1: Seq<char>, t2: Seq<char>)
    ensures
        subject_of(prefix, t1) == subject_of(prefix, t2) <==> t1 == t2,
{
    lemma_subject_parts(prefix, t1);
    lemma_subject_parts(prefix, t2);
}

} // verus!

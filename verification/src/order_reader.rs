use crate::blocking_queue::BlockingQueue;
use crate::order::Order;
use crate::utils::Message;
use vstd::prelude::*;

verus! {

/// Whether `c` is a decimal digit.
pub open spec fn is_dec_digit(c: char) -> bool {
    '0' as int <= c as int <= '9' as int
}

/// The numeric value of the decimal digit `c`.
pub open spec fn digit_value(c: char) -> int {
    c as int - '0' as int
}

/// Whether every character of `s` is a decimal digit.
pub open spec fn all_digits(s: Seq<char>) -> bool {
    forall|i: int| 0 <= i < s.len() ==> is_dec_digit(#[trigger] s[i])
}

/// The number the digit string `s` denotes in decimal notation.
pub open spec fn dec_value(s: Seq<char>) -> int
    decreases s.len(),
{
    if s.len() == 0 {
        0
    } else {
        dec_value(s.drop_last()) * 10 + digit_value(s.last())
    }
}

/// The digits of a quantity field: the field itself, or what follows one
/// leading plus sign.
pub open spec fn digits_of(s: Seq<char>) -> Seq<char> {
    if s.len() > 0 && s[0] == '+' {
        s.skip(1)
    } else {
        s
    }
}

/// Whether the field `s` denotes a quantity: at least one decimal digit after
/// an optional leading plus sign, with a value the counters can represent.
pub open spec fn parses_as_u64(s: Seq<char>) -> bool {
    &&& digits_of(s).len() > 0
    &&& all_digits(digits_of(s))
    &&& dec_value(digits_of(s)) <= u64::MAX
}

/// A digit string denotes a non-negative number.
proof fn lemma_dec_value_nonneg(s: Seq<char>)
    requires
        all_digits(s),
    ensures
        dec_value(s) >= 0,
    decreases s.len(),
{
    if s.len() > 0 {
        assert(all_digits(s.drop_last()));
        lemma_dec_value_nonneg(s.drop_last());
    }
}

/// Reading one more digit multiplies the value read so far by ten and adds
/// that digit.
proof fn lemma_dec_value_take_step(s: Seq<char>, j: int)
    requires
        0 <= j < s.len(),
    ensures
        dec_value(s.take(j + 1)) == dec_value(s.take(j)) * 10 + digit_value(s[j]),
{
    assert(s.take(j + 1).drop_last() =~= s.take(j));
    assert(s.take(j + 1).last() == s[j]);
}

/// A prefix of a digit string never denotes more than the whole string.
proof fn lemma_dec_value_take_le(s: Seq<char>, j: int)
    requires
        all_digits(s),
        0 <= j <= s.len(),
    ensures
        dec_value(s.take(j)) <= dec_value(s),
    decreases s.len() - j,
{
    if j == s.len() {
        assert(s.take(j) =~= s);
    } else {
        lemma_dec_value_take_step(s, j);
        assert(all_digits(s.take(j)));
        lemma_dec_value_nonneg(s.take(j));
        lemma_dec_value_take_le(s, j + 1);
    }
}

/// Parses one quantity field as the order reader's records carry them: an
/// optional leading plus sign followed by decimal digits, with no other
/// characters and no value beyond what the counters can represent.
pub fn parse_quantity(s: &str) -> (r: Option<u64>)
    ensures
        r matches Some(v) ==> parses_as_u64(s@) && v == dec_value(digits_of(s@)),
        r is None ==> !parses_as_u64(s@),
{
    let len = s.unicode_len();
    let mut start: usize = 0;
    if len > 0 && s.get_char(0) == '+' {
        start = 1;
    }
    if start == len {
        return None;
    }
    let ghost ds = digits_of(s@);
    let mut value: u64 = 0;
    let mut i: usize = start;
    while i < len
        invariant
            start <= i <= len,
            start <= 1,
            s@.len() == len,
            start == 1 ==> len > 0 && s@[0] == '+',
            start == 0 ==> !(s@.len() > 0 && s@[0] == '+'),
            ds == digits_of(s@),
            ds.len() == len - start,
            forall|j: int| 0 <= j < ds.len() ==> ds[j] == s@[j + start],
            all_digits(ds.take(i - start)),
            value == dec_value(ds.take(i - start)),
        decreases len - i,
    {
        let c = s.get_char(i);
        let cv = c as u32;
        if cv < 48 || cv > 57 {
            proof {
                assert(ds[(i - start) as int] == s@[i as int]);
                assert(!is_dec_digit(ds[(i - start) as int]));
            }
            return None;
        }
        let d = (cv - 48) as u64;
        proof {
            assert(ds[(i - start) as int] == s@[i as int]);
            assert(is_dec_digit(ds[(i - start) as int]));
            assert(d == digit_value(ds[(i - start) as int]));
        }
        if value > (u64::MAX - d) / 10 {
            proof {
                let j = (i - start) as int;
                let m = u64::MAX - d;
                assert(m == 10 * (m / 10) + m % 10) by {
                    vstd::arithmetic::div_mod::lemma_fundamental_div_mod(m as int, 10);
                };
                assert(0 <= m % 10 < 10);
                lemma_dec_value_take_step(ds, j);
                assert(dec_value(ds.take(j + 1)) > u64::MAX);
                if all_digits(ds) {
                    lemma_dec_value_take_le(ds, j + 1);
                    assert(dec_value(ds) > u64::MAX);
                }
            }
            return None;
        }
        proof {
            let m = u64::MAX - d;
            assert(m == 10 * (m / 10) + m % 10) by {
                vstd::arithmetic::div_mod::lemma_fundamental_div_mod(m as int, 10);
            };
            assert(0 <= m % 10 < 10);
            assert(value * 10 + d <= u64::MAX);
        }
        value = value * 10 + d;
        proof {
            lemma_dec_value_take_step(ds, (i - start) as int);
        }
        i = i + 1;
    }
    proof {
        assert(ds.take(len - start) =~= ds);
    }
    Some(value)
}

/// Whether the record `fields` carries a well-formed order: at least three
/// fields, whose first three each denote a quantity.
pub open spec fn record_parses(fields: Seq<Seq<char>>) -> bool {
    &&& fields.len() >= 3
    &&& parses_as_u64(fields[0])
    &&& parses_as_u64(fields[1])
    &&& parses_as_u64(fields[2])
}

/// Whether `order` is the order the record `fields` denotes: its coffee, milk
/// and water quantities are the record's first three fields, in that order.
pub open spec fn order_matches_record(order: Order, fields: Seq<Seq<char>>) -> bool {
    &&& order.spec_coffee() == dec_value(digits_of(fields[0]))
    &&& order.spec_milk() == dec_value(digits_of(fields[1]))
    &&& order.spec_water() == dec_value(digits_of(fields[2]))
}

/// Builds one order from one record, or nothing where the record is short or
/// a quantity is malformed.
pub fn order_from_record(fields: &Vec<String>) -> (r: Option<Order>)
    ensures
        r matches Some(order) ==> record_parses(fields.deep_view()) && order_matches_record(
            order,
            fields.deep_view(),
        ),
        r is None ==> !record_parses(fields.deep_view()),
{
    if fields.len() < 3 {
        return None;
    }
    let coffee = parse_quantity(fields[0].as_str());
    let milk = parse_quantity(fields[1].as_str());
    let water = parse_quantity(fields[2].as_str());
    match (coffee, milk, water) {
        (Some(c), Some(m), Some(w)) => Some(Order::new(c, m, w)),
        _ => None,
    }
}

/// Builds the orders a sequence of records denotes, or nothing as soon as one
/// record is short or malformed.
pub fn orders_from_records(records: &Vec<Vec<String>>) -> (r: Option<Vec<Order>>)
    ensures
        r matches Some(orders) ==> {
            &&& orders@.len() == records.deep_view().len()
            &&& forall|j: int|
                0 <= j < orders@.len() ==> record_parses(#[trigger] records.deep_view()[j])
            &&& forall|j: int|
                0 <= j < orders@.len() ==> order_matches_record(
                    #[trigger] orders@[j],
                    records.deep_view()[j],
                )
        },
        r is None ==> exists|j: int|
            0 <= j < records.deep_view().len() && !record_parses(#[trigger] records.deep_view()[j]),
{
    let mut orders: Vec<Order> = Vec::new();
    let mut i: usize = 0;
    while i < records.len()
        invariant
            i <= records.len(),
            records.deep_view().len() == records@.len(),
            orders@.len() == i,
            forall|j: int| 0 <= j < i ==> record_parses(#[trigger] records.deep_view()[j]),
            forall|j: int|
                0 <= j < i ==> order_matches_record(
                    #[trigger] orders@[j],
                    records.deep_view()[j],
                ),
        decreases records.len() - i,
    {
        proof {
            assert(records.deep_view()[i as int] == records@[i as int].deep_view());
        }
        match order_from_record(&records[i]) {
            Some(order) => orders.push(order),
            None => {
                return None;
            },
        }
        i = i + 1;
    }
    Some(orders)
}

/// The records the csv reader finds in the given input, each a sequence of
/// text fields. What exactly they are depends on the csv crate's grammar
/// (quoting, escaping, record separation) and takes pages to state; it is a
/// function of the input bytes alone.
pub uninterp spec fn csv_records_of(input: Seq<u8>) -> Seq<Seq<Seq<char>>>;

/// Whether the csv reader accepts the whole input: no record comes back as an
/// error (invalid utf-8, or a record whose width differs from the first).
/// With the reader's configuration fixed and the input held in memory, this
/// too is a function of the input bytes alone.
pub uninterp spec fn csv_accepts(input: Seq<u8>) -> bool;

/// Relies on csv::ReaderBuilder and csv::Reader::records, with headers
/// disabled: splits the input into records of text fields. Whether the whole
/// input is accepted and what its records are depend on the input bytes
/// alone; errors come back as values, and reading from a byte slice cannot
/// fail at the I/O level.
#[verifier::external_body]
fn read_csv_records(input: &[u8]) -> (r: Option<Vec<Vec<String>>>)
    ensures
        r is Some <==> csv_accepts(input@),
        r matches Some(rows) ==> rows.deep_view() == csv_records_of(input@),
{
    let mut reader = csv::ReaderBuilder::new().has_headers(false).from_reader(input);
    let mut rows: Vec<Vec<String>> = Vec::new();
    for record in reader.records() {
        match record {
            Ok(fields) => rows.push(fields.iter().map(|field| field.to_string()).collect()),
            Err(_) => return None,
        }
    }
    Some(rows)
}

/// Whether every record denotes an order.
pub open spec fn all_records_parse(records: Seq<Seq<Seq<char>>>) -> bool {
    forall|j: int| 0 <= j < records.len() ==> record_parses(#[trigger] records[j])
}

/// Parses the whole input as order records and builds their orders: one
/// order per record, exactly when the csv reader accepts the input and every
/// record denotes an order; nothing otherwise.
pub fn orders_from_input(input: &[u8]) -> (r: Option<Vec<Order>>)
    ensures
        r is Some <==> (csv_accepts(input@) && all_records_parse(csv_records_of(input@))),
        r matches Some(orders) ==> {
            &&& orders@.len() == csv_records_of(input@).len()
            &&& forall|j: int|
                0 <= j < orders@.len() ==> order_matches_record(
                    #[trigger] orders@[j],
                    csv_records_of(input@)[j],
                )
        },
{
    match read_csv_records(input) {
        Some(rows) => orders_from_records(&rows),
        None => None,
    }
}

/// Reads orders from an input already drained into memory and pushes them to
/// the output queue.
pub struct OrderReader {
    output_queue: BlockingQueue<Message>,
}

impl View for OrderReader {
    type V = Seq<Message>;

    closed spec fn view(&self) -> Seq<Message> {
        self.output_queue@
    }
}

impl OrderReader {
    /// Creates a new order reader feeding the given queue.
    pub fn new(output_stream: BlockingQueue<Message>) -> (r: Self)
        ensures
            r@ == output_stream@,
    {
        Self { output_queue: output_stream }
    }

    /// Hands the queue back once no more input will be read.
    pub fn into_queue(self) -> (r: BlockingQueue<Message>)
        ensures
            r@ == self@,
    {
        self.output_queue
    }

    /// Reads every order record of the input and pushes one job per record to
    /// the output queue, in record order. It succeeds exactly when the csv
    /// reader accepts the input and every record denotes an order; otherwise
    /// no job is pushed at all and the failure is reported instead.
    pub fn read_from(&mut self, input_stream: &[u8]) -> (ok: bool)
        ensures
            ok <==> (csv_accepts(input_stream@) && all_records_parse(
                csv_records_of(input_stream@),
            )),
            ok ==> {
                &&& final(self)@.len() == old(self)@.len() + csv_records_of(input_stream@).len()
                &&& forall|j: int|
                    0 <= j < old(self)@.len() ==> final(self)@[j] == #[trigger] old(self)@[j]
                &&& forall|j: int|
                    0 <= j < csv_records_of(input_stream@).len()
                        ==> ((#[trigger] final(self)@[old(self)@.len() + j]) matches Message::Job(
                        order,
                    ) && order_matches_record(order, csv_records_of(input_stream@)[j]))
            },
            !ok ==> final(self)@ == old(self)@,
    {
        let orders = match orders_from_input(input_stream) {
            Some(orders) => orders,
            None => {
                return false;
            },
        };
        let ghost q0 = self@;
        let mut i: usize = 0;
        while i < orders.len()
            invariant
                i <= orders.len(),
                q0 == old(self)@,
                self@.len() == q0.len() + i,
                orders@.len() == csv_records_of(input_stream@).len(),
                forall|j: int|
                    0 <= j < orders@.len() ==> order_matches_record(
                        #[trigger] orders@[j],
                        csv_records_of(input_stream@)[j],
                    ),
                forall|j: int| 0 <= j < q0.len() ==> self@[j] == #[trigger] q0[j],
                forall|j: int|
                    0 <= j < i ==> (#[trigger] self@[q0.len() + j]) == Message::Job(orders@[j]),
            decreases orders.len() - i,
        {
            self.output_queue.push_back(Message::Job(orders[i]));
            i = i + 1;
        }
        true
    }
}

} // verus!

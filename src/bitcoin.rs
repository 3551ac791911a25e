use vstd::prelude::*;

verus! {

/// When a price was published, as the price feed writes it.
#[derive(Clone, Debug)]
pub struct Time {
    pub updated: String,
    pub updated_iso: String,
    pub updateduk: String,
}

/// The text of a price message: the publication time, then the dollar rate of one BTC.
pub open spec fn price_text(updated: Seq<char>, rate: Seq<char>) -> Seq<char> {
    updated + " \n1 BTC = "@ + rate + " $"@
}

/// The text that reports the dollar `rate` of one BTC published at `time`.
pub fn btc_price_text(time: &Time, rate: &str) -> (r: String)
    ensures
        r@ == price_text(time.updateduk@, rate@),
{
    let mut text = time.updateduk.clone();
    text.append(" \n1 BTC = ");
    text.append(rate);
    text.append(" $");
    text
}

} // verus!

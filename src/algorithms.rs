use crate::errors::Error;
use vstd::prelude::*;

verus! {

/// Highest score any scorer hands out: a healthy network.
pub const MAX_SCORE: u8 = 5;

/// The composite of a market score and a reorganisation score: `0` when
/// both are `0`, else their average rounded down.
pub open spec fn composite_spec(market: int, reorg: int) -> int {
    if market == 0 && reorg == 0 {
        0
    } else {
        (market + reorg) / 2
    }
}

/// The reorganisation score for `count` reorganisations in the window, the
/// deepest of which replaced `deepest` blocks. Deep reorganisations override
/// whatever the smaller penalties came to.
pub open spec fn reorg_spec(count: int, deepest: int) -> int {
    if deepest >= 60 {
        0
    } else if deepest >= 30 {
        1
    } else if deepest >= 15 {
        2
    } else {
        5 - (if count >= 5 && deepest > 1 { 1int } else { 0 }) - (if count > 20 { 1int } else { 0 })
            - (if deepest >= 5 { 2int } else { 0 })
    }
}

/// Computes the overall health score from a market score and a reorganisation
/// score, each in `0..=5`.
pub fn health_score(nicehash_score: u8, reorg_score: u8) -> (r: Result<u8, Error>)
    ensures
        r is Ok <==> nicehash_score <= MAX_SCORE && reorg_score <= MAX_SCORE,
        r matches Ok(s) ==> s as int == composite_spec(nicehash_score as int, reorg_score as int)
            && s <= MAX_SCORE,
        r matches Err(e) ==> e == Error::InvalidNumericInput,
{
    if nicehash_score > MAX_SCORE || reorg_score > MAX_SCORE {
        return Err(Error::InvalidNumericInput);
    }
    if reorg_score == 0 && nicehash_score == 0 {
        return Ok(0);
    }
    Ok((nicehash_score + reorg_score) / 2)
}

/// Computes the reorganisation score from the number of reorganisations in
/// the window and the depth of the deepest one.
pub fn reorg_score(count: u8, deepest: u8) -> (r: Result<u8, Error>)
    ensures
        r matches Ok(s) && s as int == reorg_spec(count as int, deepest as int),
        r matches Ok(s) && s <= MAX_SCORE,
{
    let mut score: u8 = MAX_SCORE;
    if count >= 5 && deepest > 1 {
        score -= 1;
    }
    if count > 20 {
        score -= 1;
    }
    if deepest >= 5 {
        score -= 1;
    }
    if deepest >= 5 {
        score -= 1;
    }
    if deepest >= 15 {
        score = 2;
    }
    if deepest >= 30 {
        score = 1;
    }
    if deepest >= 60 {
        score = 0;
    }
    Ok(score)
}

/// The threshold tests of the market scorer, each already decided on the
/// ratios built from the marketplace and network figures.
#[derive(Debug, Clone, Copy, PartialEq, Eq, Structural)]
pub struct MarketSignals {
    /// Marketplace price over daily earning per unit of hashpower is at least 1.5.
    pub profitable: bool,
    /// Current price over average price is at least 1.5.
    pub price_spiked: bool,
    /// Current price over average price is at least 2.0.
    pub price_doubled: bool,
    /// Marketplace hashrate over network hashrate is at least 0.5.
    pub network_half: bool,
    /// Marketplace hashrate over network hashrate is at least 0.75.
    pub network_three_quarters: bool,
    /// Marketplace hashrate over network hashrate is at least 0.9.
    pub network_ninety: bool,
    /// Current marketplace hashrate over its average is at least 1.5.
    pub speed_spiked: bool,
}

pub open spec fn penalty(b: bool) -> int {
    if b {
        1
    } else {
        0
    }
}

/// The market score: five unconditional penalties, two more while the score
/// is above 1, and a last one when a majority share of the network is for
/// rent and the score stands at exactly 4.
pub open spec fn market_spec(s: MarketSignals) -> int {
    let base = 5 - penalty(s.profitable) - penalty(s.price_spiked) - penalty(s.price_doubled)
        - penalty(s.network_half) - penalty(s.network_three_quarters);
    let after_ninety = if base > 1 && s.network_ninety {
        base - 1
    } else {
        base
    };
    let after_speed = if after_ninety > 1 && s.speed_spiked {
        after_ninety - 1
    } else {
        after_ninety
    };
    if after_speed == 4 && s.network_half {
        after_speed - 1
    } else {
        after_speed
    }
}

/// Computes the market score from the decided threshold tests, applying the
/// penalties strictly in order.
pub fn market_score(signals: MarketSignals) -> (r: u8)
    ensures
        r as int == market_spec(signals),
        r <= MAX_SCORE,
{
    let mut score: u8 = MAX_SCORE;
    if signals.profitable {
        score -= 1;
    }
    if signals.price_spiked {
        score -= 1;
    }
    if signals.price_doubled {
        score -= 1;
    }
    if signals.network_half {
        score -= 1;
    }
    if signals.network_three_quarters {
        score -= 1;
    }
    if score > 1 && signals.network_ninety {
        score -= 1;
    }
    if score > 1 && signals.speed_spiked {
        score -= 1;
    }
    if score == 4 && signals.network_half {
        score -= 1;
    }
    score
}

/// The reorganisation score never rises as the deepest reorganisation gets
/// deeper, for a fixed count. The one exception is left out: with more than
/// 20 reorganisations a depth in `5..15` scores 1 while a depth in `15..30`
/// is overridden to 2.
pub proof fn lemma_reorg_monotone_in_depth(count: u8, shallow: u8, deep: u8)
    requires
        shallow <= deep,
        !(count > 20 && 5 <= shallow < 15 && 15 <= deep < 30),
    ensures
        reorg_spec(count as int, deep as int) <= reorg_spec(count as int, shallow as int),
{
}

/// A reorganisation 60 or more blocks deep scores 0 whatever the count.
pub proof fn lemma_reorg_deep_override(count: u8, deepest: u8)
    requires
        deepest >= 60,
    ensures
        reorg_spec(count as int, deepest as int) == 0,
{
}

/// Every scorer stays within `0..=5`, for every input it accepts.
pub proof fn lemma_scores_in_range(market: u8, reorg: u8, count: u8, deepest: u8, signals: MarketSignals)
    requires
        market <= MAX_SCORE,
        reorg <= MAX_SCORE,
    ensures
        0 <= market_spec(signals) <= 5,
        0 <= reorg_spec(count as int, deepest as int) <= 5,
        0 <= composite_spec(market as int, reorg as int) <= 5,
{
}

/// Both sub-scores at 0 give 0, and only then does the floor apply: any other
/// pair gives the average rounded down.
pub proof fn lemma_composite_floor(market: u8, reorg: u8)
    requires
        market <= MAX_SCORE,
        reorg <= MAX_SCORE,
    ensures
        composite_spec(0, 0) == 0,
        !(market == 0 && reorg == 0) ==> composite_spec(market as int, reorg as int) == (
        market + reorg) as int / 2,
{
}

} // verus!

//! The loading-bar widget: its geometry and label as pure functions of the
//! load progress.

use crate::progress::Ratio;
use vstd::arithmetic::div_mod::{lemma_div_by_multiple, lemma_div_is_ordered};
use vstd::arithmetic::mul::lemma_mul_inequality;
use vstd::prelude::*;

verus! {

/// Padding between the background and the filled bar, in layout units.
pub const SPACING: u32 = 10;

/// Placement of a UI element, in whole layout units.
#[derive(Clone, Copy, Debug, PartialEq, Eq, Structural)]
pub struct UiTransform {
    pub local_x: i64,
    pub width: u32,
    pub height: u32,
}

pub struct UiText {
    pub text: String,
}

/// Settings of a loading bar as read from a UI layout.
#[derive(Clone, Copy, Debug, PartialEq, Eq, Structural)]
pub struct UiLoadingBar {
    pub progress: Ratio,
}

/// The parts a loading bar is drawn from: the background, the filled bar
/// inside it, and the percentage label on top.
pub struct LoadingBarWidget {
    pub background: UiTransform,
    pub bar: UiTransform,
    pub label_transform: UiTransform,
    pub label: UiText,
}

/// The custom widgets a UI layout may hold besides the engine's own.
pub enum CustomUi {
    LoadingBar { transform: UiTransform, loading_bar: UiLoadingBar },
}

/// A progress value: a fraction in `[0, 1]`.
pub open spec fn valid_progress(p: Ratio) -> bool {
    p.den > 0 && p.num <= p.den
}

/// The width left for the bar once the padding is taken off.
pub open spec fn inner_width(background_width: nat) -> nat {
    if background_width >= SPACING {
        (background_width - SPACING) as nat
    } else {
        0
    }
}

/// The filled width, rounded down: `inner_width * progress`.
pub open spec fn bar_width(background_width: nat, p: Ratio) -> nat {
    inner_width(background_width) * (p.num as nat) / (p.den as nat)
}

/// The bar's centre: left-anchored within the background after half the
/// padding, rounded down to a whole unit.
pub open spec fn bar_x(background_x: int, width: nat) -> int {
    background_x + (SPACING / 2) as int + (width / 2) as int
}

/// `100 * progress`, rounded to the nearest integer, halves upward.
pub open spec fn percent(p: Ratio) -> nat {
    ((200 * p.num + p.den) / (2 * p.den)) as nat
}

pub open spec fn digit_char(d: nat) -> char {
    seq!['0', '1', '2', '3', '4', '5', '6', '7', '8', '9'][(d % 10) as int]
}

/// The decimal digits of `n`, without leading zeros.
pub open spec fn decimal(n: nat) -> Seq<char>
    decreases n,
{
    if n < 10 {
        seq![digit_char(n)]
    } else {
        decimal(n / 10).push(digit_char(n % 10))
    }
}

/// The label of a loading bar at progress `p`, such as `42%`.
pub open spec fn percent_label(p: Ratio) -> Seq<char> {
    decimal(percent(p)).push('%')
}

/// Relies on `format!` with `{}` on a `u64`: the decimal digits without
/// leading zeros.
#[verifier::external_body]
fn decimal_text(value: u64) -> (r: String)
    ensures
        r@ == decimal(value as nat),
{
    format!("{}", value)
}

/// The label for a rounded percentage: its digits and a percent sign.
fn percent_text(value: u64) -> (r: String)
    ensures
        r@ == decimal(value as nat).push('%'),
{
    let r = decimal_text(value).concat("%");
    proof {
        reveal_strlit("%");
        assert(r@ =~= decimal(value as nat).push('%'));
    }
    r
}

proof fn lemma_bar_width_bounded(inner: nat, p: Ratio)
    requires
        valid_progress(p),
    ensures
        inner * (p.num as nat) / (p.den as nat) <= inner,
{
    lemma_mul_inequality(p.num as int, p.den as int, inner as int);
    assert(inner * (p.num as nat) <= inner * (p.den as nat)) by (nonlinear_arith)
        requires
            p.num as int * inner as int <= p.den as int * inner as int,
    ;
    lemma_div_is_ordered((inner * (p.num as nat)) as int, (inner * (p.den as nat)) as int, p.den as int);
    lemma_div_by_multiple(inner as int, p.den as int);
}

proof fn lemma_percent_bounded(p: Ratio)
    requires
        valid_progress(p),
    ensures
        percent(p) <= 100,
{
    let n = p.num as int;
    let d = p.den as int;
    assert(200 * n + d <= 201 * d);
    lemma_div_is_ordered(200 * n + d, 201 * d, 2 * d);
    assert((201 * d) / (2 * d) <= 100) by (nonlinear_arith)
        requires
            d > 0,
    ;
}

/// The filled width for `background_width` at progress `p`.
fn filled_width(background_width: u32, p: Ratio) -> (r: u32)
    requires
        valid_progress(p),
    ensures
        r as nat == bar_width(background_width as nat, p),
{
    let inner: u32 = if background_width >= SPACING { background_width - SPACING } else { 0 };
    proof {
        lemma_bar_width_bounded(inner as nat, p);
        assert(inner as u128 * p.num as u128 <= u32::MAX as u128 * u64::MAX as u128) by (nonlinear_arith)
            requires
                inner <= u32::MAX,
                p.num <= u64::MAX,
        ;
    }
    let w: u128 = (inner as u128 * p.num as u128) / p.den as u128;
    w as u32
}

/// The rounded percentage shown for progress `p`.
fn rounded_percent(p: Ratio) -> (r: u64)
    requires
        valid_progress(p),
    ensures
        r as nat == percent(p),
        r <= 100,
{
    proof {
        lemma_percent_bounded(p);
    }
    let v: u128 = (200 * p.num as u128 + p.den as u128) / (2 * p.den as u128);
    v as u64
}

/// The left edge may not be so far right that the bar's centre overflows.
pub open spec fn placeable(background: UiTransform) -> bool {
    background.local_x <= i64::MAX - u32::MAX
}

pub fn is_placeable(background: UiTransform) -> (r: bool)
    ensures
        r == placeable(background),
{
    background.local_x <= i64::MAX - u32::MAX as i64
}

/// Moves and resizes the filled bar and rewrites the label for progress
/// `progress`, given the background the bar sits in.
pub fn update_loading_bar(
    bar_transform: &mut UiTransform,
    background_transform: UiTransform,
    loading_text: &mut UiText,
    progress: Ratio,
)
    requires
        valid_progress(progress),
        placeable(background_transform),
    ensures
        final(bar_transform).width as nat == bar_width(background_transform.width as nat, progress),
        final(bar_transform).local_x == bar_x(
            background_transform.local_x as int,
            final(bar_transform).width as nat,
        ),
        final(bar_transform).height == old(bar_transform).height,
        final(loading_text).text@ == percent_label(progress),
{
    let width = filled_width(background_transform.width, progress);
    bar_transform.local_x = background_transform.local_x + (SPACING / 2) as i64 + (width / 2) as i64;
    bar_transform.width = width;
    loading_text.text = percent_text(rounded_percent(progress));
}

impl UiLoadingBar {
    /// Lays out a loading bar inside `background_transform`: the bar filled
    /// to the configured progress, its height less the padding, and a label
    /// that reads `0.00%` until the first update.
    pub fn native_widget(self, background_transform: UiTransform) -> (r: LoadingBarWidget)
        requires
            valid_progress(self.progress),
            placeable(background_transform),
        ensures
            r.background == background_transform,
            r.bar.width as nat == bar_width(background_transform.width as nat, self.progress),
            r.bar.local_x == bar_x(background_transform.local_x as int, r.bar.width as nat),
            r.bar.height as nat == inner_width(background_transform.height as nat),
            r.label_transform == (UiTransform { local_x: 0, ..background_transform }),
            r.label.text@ == seq!['0', '.', '0', '0', '%'],
    {
        let width = filled_width(background_transform.width, self.progress);
        let height: u32 = if background_transform.height >= SPACING {
            background_transform.height - SPACING
        } else {
            0
        };
        let bar = UiTransform {
            local_x: background_transform.local_x + (SPACING / 2) as i64 + (width / 2) as i64,
            width,
            height,
        };
        let label_transform = UiTransform { local_x: 0, ..background_transform };
        let text = "0.00%".to_owned();
        proof {
            reveal_strlit("0.00%");
        }
        LoadingBarWidget {
            background: background_transform,
            bar,
            label_transform,
            label: UiText { text },
        }
    }
}

impl CustomUi {
    /// Builds the widget a custom UI entry stands for.
    pub fn to_native_widget(self) -> (r: LoadingBarWidget)
        requires
            self is LoadingBar ==> valid_progress(self->loading_bar.progress),
            self is LoadingBar ==> placeable(self->LoadingBar_transform),
        ensures
            match self {
                CustomUi::LoadingBar { transform, loading_bar } => {
                    &&& r.background == transform
                    &&& r.bar.width as nat == bar_width(transform.width as nat, loading_bar.progress)
                    &&& r.bar.local_x == bar_x(transform.local_x as int, r.bar.width as nat)
                    &&& r.bar.height as nat == inner_width(transform.height as nat)
                    &&& r.label_transform == (UiTransform { local_x: 0, ..transform })
                    &&& r.label.text@ == seq!['0', '.', '0', '0', '%']
                },
            },
    {
        match self {
            CustomUi::LoadingBar { transform, loading_bar } => loading_bar.native_widget(transform),
        }
    }
}

} // verus!

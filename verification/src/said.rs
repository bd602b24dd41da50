//! What one step of an instrument says, held in the outside crate's small vector (`smallvec`): at
//! most a couple of signals per step, without a heap allocation. The vector lives in a private field;
//! what it holds is named per element type, and each name is spoken of only by the wrappers below:
//! the vector is filled from an optional signal (`FromIterator for SmallVec`, through
//! `Option::into_iter`) and emptied into a `Vec` (`SmallVec::into_vec`), both in order.
use vstd::prelude::*;

use crate::distress::Distress;
use crate::resolve::Resolved;
use crate::trust::Trust;
use crate::departure::Left;
use crate::episode::Ending;
use crate::leg::Leg;
use crate::pace::Waited;
use crate::agreement::Agreement;
use crate::sag::Sag;
use crate::fate::Admits;

verus! {

/// The signals of one step, in order.
#[verifier::external_body]
#[verifier::reject_recursive_types(T)]
pub struct Said<T> {
    inner: smallvec::SmallVec<[T; 2]>,
}

/// The sequence an optional signal stands for: one element or none.
pub open spec fn seq_of<T>(o: Option<T>) -> Seq<T> {
    match o {
        Some(t) => seq![t],
        None => Seq::empty(),
    }
}

/// What a `Said<Distress>` holds.
pub uninterp spec fn distress_said(s: Said<Distress>) -> Seq<Distress>;

/// Builds the vector from an optional signal (`SmallVec::from_iter`): it holds that signal, or
/// nothing.
#[verifier::external_body]
fn collect_distress(o: Option<Distress>) -> (r: Said<Distress>)
    ensures
        distress_said(r) == seq_of(o),
{
    Said { inner: o.into_iter().collect() }
}

/// Moves the signals out (`SmallVec::into_vec`), in order.
#[verifier::external_body]
fn distress_into_vec(s: Said<Distress>) -> (r: Vec<Distress>)
    ensures
        r@ == distress_said(s),
{
    s.inner.into_vec()
}

impl Said<Distress> {
    /// The signals of a step that said `o`.
    pub fn of(o: Option<Distress>) -> (r: Said<Distress>)
        ensures
            distress_said(r) == seq_of(o),
    {
        collect_distress(o)
    }

    /// The signals, in the order they were said.
    pub fn signals(self) -> (r: Vec<Distress>)
        ensures
            r@ == distress_said(self),
    {
        distress_into_vec(self)
    }
}

/// What a `Said<Resolved>` holds.
pub uninterp spec fn resolved_said(s: Said<Resolved>) -> Seq<Resolved>;

/// Builds the vector from an optional signal (`SmallVec::from_iter`): it holds that signal, or
/// nothing.
#[verifier::external_body]
fn collect_resolved(o: Option<Resolved>) -> (r: Said<Resolved>)
    ensures
        resolved_said(r) == seq_of(o),
{
    Said { inner: o.into_iter().collect() }
}

/// Moves the signals out (`SmallVec::into_vec`), in order.
#[verifier::external_body]
fn resolved_into_vec(s: Said<Resolved>) -> (r: Vec<Resolved>)
    ensures
        r@ == resolved_said(s),
{
    s.inner.into_vec()
}

impl Said<Resolved> {
    /// The signals of a step that said `o`.
    pub fn of_resolved(o: Option<Resolved>) -> (r: Said<Resolved>)
        ensures
            resolved_said(r) == seq_of(o),
    {
        collect_resolved(o)
    }

    /// The signals, in the order they were said.
    pub fn signals(self) -> (r: Vec<Resolved>)
        ensures
            r@ == resolved_said(self),
    {
        resolved_into_vec(self)
    }
}

/// What a `Said<Trust>` holds.
pub uninterp spec fn trust_said(s: Said<Trust>) -> Seq<Trust>;

/// Builds the vector from an optional signal (`SmallVec::from_iter`): it holds that signal, or
/// nothing.
#[verifier::external_body]
fn collect_trust(o: Option<Trust>) -> (r: Said<Trust>)
    ensures
        trust_said(r) == seq_of(o),
{
    Said { inner: o.into_iter().collect() }
}

/// Moves the signals out (`SmallVec::into_vec`), in order.
#[verifier::external_body]
fn trust_into_vec(s: Said<Trust>) -> (r: Vec<Trust>)
    ensures
        r@ == trust_said(s),
{
    s.inner.into_vec()
}

impl Said<Trust> {
    /// The signals of a step that said `o`.
    pub fn of_trust(o: Option<Trust>) -> (r: Said<Trust>)
        ensures
            trust_said(r) == seq_of(o),
    {
        collect_trust(o)
    }

    /// The signals, in the order they were said.
    pub fn signals(self) -> (r: Vec<Trust>)
        ensures
            r@ == trust_said(self),
    {
        trust_into_vec(self)
    }
}

/// What a `Said<Left>` holds.
pub uninterp spec fn left_said(s: Said<Left>) -> Seq<Left>;

/// Builds the vector from an optional signal (`SmallVec::from_iter`): it holds that signal, or
/// nothing.
#[verifier::external_body]
fn collect_left(o: Option<Left>) -> (r: Said<Left>)
    ensures
        left_said(r) == seq_of(o),
{
    Said { inner: o.into_iter().collect() }
}

/// Moves the signals out (`SmallVec::into_vec`), in order.
#[verifier::external_body]
fn left_into_vec(s: Said<Left>) -> (r: Vec<Left>)
    ensures
        r@ == left_said(s),
{
    s.inner.into_vec()
}

impl Said<Left> {
    /// The signals of a step that said `o`.
    pub fn of_left(o: Option<Left>) -> (r: Said<Left>)
        ensures
            left_said(r) == seq_of(o),
    {
        collect_left(o)
    }

    /// The signals, in the order they were said.
    pub fn signals(self) -> (r: Vec<Left>)
        ensures
            r@ == left_said(self),
    {
        left_into_vec(self)
    }
}

/// What a `Said<Ending>` holds.
pub uninterp spec fn ending_said(s: Said<Ending>) -> Seq<Ending>;

/// Builds the vector from an optional signal (`SmallVec::from_iter`): it holds that signal, or
/// nothing.
#[verifier::external_body]
fn collect_ending(o: Option<Ending>) -> (r: Said<Ending>)
    ensures
        ending_said(r) == seq_of(o),
{
    Said { inner: o.into_iter().collect() }
}

/// Moves the signals out (`SmallVec::into_vec`), in order.
#[verifier::external_body]
fn ending_into_vec(s: Said<Ending>) -> (r: Vec<Ending>)
    ensures
        r@ == ending_said(s),
{
    s.inner.into_vec()
}

impl Said<Ending> {
    /// The signals of a step that said `o`.
    pub fn of_ending(o: Option<Ending>) -> (r: Said<Ending>)
        ensures
            ending_said(r) == seq_of(o),
    {
        collect_ending(o)
    }

    /// The signals, in the order they were said.
    pub fn signals(self) -> (r: Vec<Ending>)
        ensures
            r@ == ending_said(self),
    {
        ending_into_vec(self)
    }
}

/// What a `Said<Leg>` holds.
pub uninterp spec fn leg_said(s: Said<Leg>) -> Seq<Leg>;

/// Builds the vector from an optional signal (`SmallVec::from_iter`): it holds that signal, or
/// nothing.
#[verifier::external_body]
fn collect_leg(o: Option<Leg>) -> (r: Said<Leg>)
    ensures
        leg_said(r) == seq_of(o),
{
    Said { inner: o.into_iter().collect() }
}

/// Moves the signals out (`SmallVec::into_vec`), in order.
#[verifier::external_body]
fn leg_into_vec(s: Said<Leg>) -> (r: Vec<Leg>)
    ensures
        r@ == leg_said(s),
{
    s.inner.into_vec()
}

impl Said<Leg> {
    /// The signals of a step that said `o`.
    pub fn of_leg(o: Option<Leg>) -> (r: Said<Leg>)
        ensures
            leg_said(r) == seq_of(o),
    {
        collect_leg(o)
    }

    /// The signals, in the order they were said.
    pub fn signals(self) -> (r: Vec<Leg>)
        ensures
            r@ == leg_said(self),
    {
        leg_into_vec(self)
    }
}

/// What a `Said<Waited>` holds.
pub uninterp spec fn waited_said(s: Said<Waited>) -> Seq<Waited>;

/// Builds the vector from an optional signal (`SmallVec::from_iter`): it holds that signal, or
/// nothing.
#[verifier::external_body]
fn collect_waited(o: Option<Waited>) -> (r: Said<Waited>)
    ensures
        waited_said(r) == seq_of(o),
{
    Said { inner: o.into_iter().collect() }
}

/// Moves the signals out (`SmallVec::into_vec`), in order.
#[verifier::external_body]
fn waited_into_vec(s: Said<Waited>) -> (r: Vec<Waited>)
    ensures
        r@ == waited_said(s),
{
    s.inner.into_vec()
}

impl Said<Waited> {
    /// The signals of a step that said `o`.
    pub fn of_waited(o: Option<Waited>) -> (r: Said<Waited>)
        ensures
            waited_said(r) == seq_of(o),
    {
        collect_waited(o)
    }

    /// The signals, in the order they were said.
    pub fn signals(self) -> (r: Vec<Waited>)
        ensures
            r@ == waited_said(self),
    {
        waited_into_vec(self)
    }
}

/// What a `Said<Agreement>` holds.
pub uninterp spec fn agreement_said(s: Said<Agreement>) -> Seq<Agreement>;

/// Builds the vector from an optional signal (`SmallVec::from_iter`): it holds that signal, or
/// nothing.
#[verifier::external_body]
fn collect_agreement(o: Option<Agreement>) -> (r: Said<Agreement>)
    ensures
        agreement_said(r) == seq_of(o),
{
    Said { inner: o.into_iter().collect() }
}

/// Moves the signals out (`SmallVec::into_vec`), in order.
#[verifier::external_body]
fn agreement_into_vec(s: Said<Agreement>) -> (r: Vec<Agreement>)
    ensures
        r@ == agreement_said(s),
{
    s.inner.into_vec()
}

impl Said<Agreement> {
    /// The signals of a step that said `o`.
    pub fn of_agreement(o: Option<Agreement>) -> (r: Said<Agreement>)
        ensures
            agreement_said(r) == seq_of(o),
    {
        collect_agreement(o)
    }

    /// The signals, in the order they were said.
    pub fn signals(self) -> (r: Vec<Agreement>)
        ensures
            r@ == agreement_said(self),
    {
        agreement_into_vec(self)
    }
}

/// What a `Said<Sag>` holds.
pub uninterp spec fn sag_said(s: Said<Sag>) -> Seq<Sag>;

/// Builds the vector from an optional signal (`SmallVec::from_iter`): it holds that signal, or
/// nothing.
#[verifier::external_body]
fn collect_sag(o: Option<Sag>) -> (r: Said<Sag>)
    ensures
        sag_said(r) == seq_of(o),
{
    Said { inner: o.into_iter().collect() }
}

/// Moves the signals out (`SmallVec::into_vec`), in order.
#[verifier::external_body]
fn sag_into_vec(s: Said<Sag>) -> (r: Vec<Sag>)
    ensures
        r@ == sag_said(s),
{
    s.inner.into_vec()
}

impl Said<Sag> {
    /// The signals of a step that said `o`.
    pub fn of_sag(o: Option<Sag>) -> (r: Said<Sag>)
        ensures
            sag_said(r) == seq_of(o),
    {
        collect_sag(o)
    }

    /// The signals, in the order they were said.
    pub fn signals(self) -> (r: Vec<Sag>)
        ensures
            r@ == sag_said(self),
    {
        sag_into_vec(self)
    }
}

/// What a `Said<Admits>` holds.
pub uninterp spec fn admits_said(s: Said<Admits>) -> Seq<Admits>;

/// Builds the vector from an optional signal (`SmallVec::from_iter`): it holds that signal, or
/// nothing.
#[verifier::external_body]
fn collect_admits(o: Option<Admits>) -> (r: Said<Admits>)
    ensures
        admits_said(r) == seq_of(o),
{
    Said { inner: o.into_iter().collect() }
}

/// Moves the signals out (`SmallVec::into_vec`), in order.
#[verifier::external_body]
fn admits_into_vec(s: Said<Admits>) -> (r: Vec<Admits>)
    ensures
        r@ == admits_said(s),
{
    s.inner.into_vec()
}

impl Said<Admits> {
    /// The signals of a step that said `o`.
    pub fn of_admits(o: Option<Admits>) -> (r: Said<Admits>)
        ensures
            admits_said(r) == seq_of(o),
    {
        collect_admits(o)
    }

    /// The signals, in the order they were said.
    pub fn signals(self) -> (r: Vec<Admits>)
        ensures
            r@ == admits_said(self),
    {
        admits_into_vec(self)
    }
}

} // verus!

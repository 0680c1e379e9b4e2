//! Comparison, logical and arithmetic operators on variables, calls and
//! binary operations: each builds a `BinaryOperation`.

use vstd::prelude::*;
use crate::ir::BinaryOp;
use super::{BinaryOperation, Call, Generate, Variable};

verus! {

impl<'n> Variable<'n> {
    /// The comparison `==` of this value with `other`.
    pub fn equals<R>(self, other: R) -> (b: BinaryOperation<Self, R>)
        where
            Self: Generate,
        ensures
            b.lhs() == self,
            b.rhs() == other,
            b.operator() == BinaryOp::Equal,
    {
        BinaryOperation { lhs: self, operator: BinaryOp::Equal, rhs: other }
    }

    /// The comparison `!=` of this value with `other`.
    pub fn not_equals<R>(self, other: R) -> (b: BinaryOperation<Self, R>)
        where
            Self: Generate,
        ensures
            b.lhs() == self,
            b.rhs() == other,
            b.operator() == BinaryOp::NEqual,
    {
        BinaryOperation { lhs: self, operator: BinaryOp::NEqual, rhs: other }
    }

    /// The comparison `<` of this value with `other`.
    pub fn lt<R>(self, other: R) -> (b: BinaryOperation<Self, R>)
        where
            Self: Generate,
        ensures
            b.lhs() == self,
            b.rhs() == other,
            b.operator() == BinaryOp::Lt,
    {
        BinaryOperation { lhs: self, operator: BinaryOp::Lt, rhs: other }
    }

    /// The comparison `<=` of this value with `other`.
    pub fn lte<R>(self, other: R) -> (b: BinaryOperation<Self, R>)
        where
            Self: Generate,
        ensures
            b.lhs() == self,
            b.rhs() == other,
            b.operator() == BinaryOp::LtEqual,
    {
        BinaryOperation { lhs: self, operator: BinaryOp::LtEqual, rhs: other }
    }

    /// The comparison `>` of this value with `other`.
    pub fn gt<R>(self, other: R) -> (b: BinaryOperation<Self, R>)
        where
            Self: Generate,
        ensures
            b.lhs() == self,
            b.rhs() == other,
            b.operator() == BinaryOp::Gt,
    {
        BinaryOperation { lhs: self, operator: BinaryOp::Gt, rhs: other }
    }

    /// The comparison `>=` of this value with `other`.
    pub fn gte<R>(self, other: R) -> (b: BinaryOperation<Self, R>)
        where
            Self: Generate,
        ensures
            b.lhs() == self,
            b.rhs() == other,
            b.operator() == BinaryOp::GtEqual,
    {
        BinaryOperation { lhs: self, operator: BinaryOp::GtEqual, rhs: other }
    }

    /// The comparison `and` of this value with `other`.
    pub fn and<R>(self, other: R) -> (b: BinaryOperation<Self, R>)
        where
            Self: Generate,
        ensures
            b.lhs() == self,
            b.rhs() == other,
            b.operator() == BinaryOp::And,
    {
        BinaryOperation { lhs: self, operator: BinaryOp::And, rhs: other }
    }

    /// The comparison `or` of this value with `other`.
    pub fn or<R>(self, other: R) -> (b: BinaryOperation<Self, R>)
        where
            Self: Generate,
        ensures
            b.lhs() == self,
            b.rhs() == other,
            b.operator() == BinaryOp::Or,
    {
        BinaryOperation { lhs: self, operator: BinaryOp::Or, rhs: other }
    }
}

impl<'n, R> core::ops::Add<R> for Variable<'n> where R: Generate {
    type Output = BinaryOperation<Variable<'n>, R>;

    fn add(self, rhs: R) -> (b: Self::Output)
        ensures
            b.lhs() == self,
            b.rhs() == rhs,
            b.operator() == BinaryOp::Add,
    {
        BinaryOperation { lhs: self, rhs, operator: BinaryOp::Add }
    }
}

impl<'n, R> vstd::std_specs::ops::AddSpecImpl<R> for Variable<'n> where R: Generate {
    open spec fn obeys_add_spec() -> bool {
        true
    }

    open spec fn add_req(self, rhs: R) -> bool {
        true
    }

    closed spec fn add_spec(self, rhs: R) -> BinaryOperation<Variable<'n>, R> {
        BinaryOperation { lhs: self, rhs, operator: BinaryOp::Add }
    }
}

impl<'n, R> core::ops::Sub<R> for Variable<'n> where R: Generate {
    type Output = BinaryOperation<Variable<'n>, R>;

    fn sub(self, rhs: R) -> (b: Self::Output)
        ensures
            b.lhs() == self,
            b.rhs() == rhs,
            b.operator() == BinaryOp::Sub,
    {
        BinaryOperation { lhs: self, rhs, operator: BinaryOp::Sub }
    }
}

impl<'n, R> vstd::std_specs::ops::SubSpecImpl<R> for Variable<'n> where R: Generate {
    open spec fn obeys_sub_spec() -> bool {
        true
    }

    open spec fn sub_req(self, rhs: R) -> bool {
        true
    }

    closed spec fn sub_spec(self, rhs: R) -> BinaryOperation<Variable<'n>, R> {
        BinaryOperation { lhs: self, rhs, operator: BinaryOp::Sub }
    }
}

impl<'n, R> core::ops::Mul<R> for Variable<'n> where R: Generate {
    type Output = BinaryOperation<Variable<'n>, R>;

    fn mul(self, rhs: R) -> (b: Self::Output)
        ensures
            b.lhs() == self,
            b.rhs() == rhs,
            b.operator() == BinaryOp::Mul,
    {
        BinaryOperation { lhs: self, rhs, operator: BinaryOp::Mul }
    }
}

impl<'n, R> vstd::std_specs::ops::MulSpecImpl<R> for Variable<'n> where R: Generate {
    open spec fn obeys_mul_spec() -> bool {
        true
    }

    open spec fn mul_req(self, rhs: R) -> bool {
        true
    }

    closed spec fn mul_spec(self, rhs: R) -> BinaryOperation<Variable<'n>, R> {
        BinaryOperation { lhs: self, rhs, operator: BinaryOp::Mul }
    }
}

impl<'n, R> core::ops::Div<R> for Variable<'n> where R: Generate {
    type Output = BinaryOperation<Variable<'n>, R>;

    fn div(self, rhs: R) -> (b: Self::Output)
        ensures
            b.lhs() == self,
            b.rhs() == rhs,
            b.operator() == BinaryOp::Div,
    {
        BinaryOperation { lhs: self, rhs, operator: BinaryOp::Div }
    }
}

impl<'n, R> vstd::std_specs::ops::DivSpecImpl<R> for Variable<'n> where R: Generate {
    open spec fn obeys_div_spec() -> bool {
        true
    }

    open spec fn div_req(self, rhs: R) -> bool {
        true
    }

    closed spec fn div_spec(self, rhs: R) -> BinaryOperation<Variable<'n>, R> {
        BinaryOperation { lhs: self, rhs, operator: BinaryOp::Div }
    }
}

impl<'n, R> core::ops::Rem<R> for Variable<'n> where R: Generate {
    type Output = BinaryOperation<Variable<'n>, R>;

    fn rem(self, rhs: R) -> (b: Self::Output)
        ensures
            b.lhs() == self,
            b.rhs() == rhs,
            b.operator() == BinaryOp::Rem,
    {
        BinaryOperation { lhs: self, rhs, operator: BinaryOp::Rem }
    }
}

impl<'n, R> vstd::std_specs::ops::RemSpecImpl<R> for Variable<'n> where R: Generate {
    open spec fn obeys_rem_spec() -> bool {
        true
    }

    open spec fn rem_req(self, rhs: R) -> bool {
        true
    }

    closed spec fn rem_spec(self, rhs: R) -> BinaryOperation<Variable<'n>, R> {
        BinaryOperation { lhs: self, rhs, operator: BinaryOp::Rem }
    }
}

impl<A, B> BinaryOperation<A, B> {
    /// The comparison `==` of this value with `other`.
    pub fn equals<R>(self, other: R) -> (b: BinaryOperation<Self, R>)
        where
            Self: Generate,
        ensures
            b.lhs() == self,
            b.rhs() == other,
            b.operator() == BinaryOp::Equal,
    {
        BinaryOperation { lhs: self, operator: BinaryOp::Equal, rhs: other }
    }

    /// The comparison `!=` of this value with `other`.
    pub fn not_equals<R>(self, other: R) -> (b: BinaryOperation<Self, R>)
        where
            Self: Generate,
        ensures
            b.lhs() == self,
            b.rhs() == other,
            b.operator() == BinaryOp::NEqual,
    {
        BinaryOperation { lhs: self, operator: BinaryOp::NEqual, rhs: other }
    }

    /// The comparison `<` of this value with `other`.
    pub fn lt<R>(self, other: R) -> (b: BinaryOperation<Self, R>)
        where
            Self: Generate,
        ensures
            b.lhs() == self,
            b.rhs() == other,
            b.operator() == BinaryOp::Lt,
    {
        BinaryOperation { lhs: self, operator: BinaryOp::Lt, rhs: other }
    }

    /// The comparison `<=` of this value with `other`.
    pub fn lte<R>(self, other: R) -> (b: BinaryOperation<Self, R>)
        where
            Self: Generate,
        ensures
            b.lhs() == self,
            b.rhs() == other,
            b.operator() == BinaryOp::LtEqual,
    {
        BinaryOperation { lhs: self, operator: BinaryOp::LtEqual, rhs: other }
    }

    /// The comparison `>` of this value with `other`.
    pub fn gt<R>(self, other: R) -> (b: BinaryOperation<Self, R>)
        where
            Self: Generate,
        ensures
            b.lhs() == self,
            b.rhs() == other,
            b.operator() == BinaryOp::Gt,
    {
        BinaryOperation { lhs: self, operator: BinaryOp::Gt, rhs: other }
    }

    /// The comparison `>=` of this value with `other`.
    pub fn gte<R>(self, other: R) -> (b: BinaryOperation<Self, R>)
        where
            Self: Generate,
        ensures
            b.lhs() == self,
            b.rhs() == other,
            b.operator() == BinaryOp::GtEqual,
    {
        BinaryOperation { lhs: self, operator: BinaryOp::GtEqual, rhs: other }
    }

    /// The comparison `and` of this value with `other`.
    pub fn and<R>(self, other: R) -> (b: BinaryOperation<Self, R>)
        where
            Self: Generate,
        ensures
            b.lhs() == self,
            b.rhs() == other,
            b.operator() == BinaryOp::And,
    {
        BinaryOperation { lhs: self, operator: BinaryOp::And, rhs: other }
    }

    /// The comparison `or` of this value with `other`.
    pub fn or<R>(self, other: R) -> (b: BinaryOperation<Self, R>)
        where
            Self: Generate,
        ensures
            b.lhs() == self,
            b.rhs() == other,
            b.operator() == BinaryOp::Or,
    {
        BinaryOperation { lhs: self, operator: BinaryOp::Or, rhs: other }
    }
}

impl<A, B, R> core::ops::Add<R> for BinaryOperation<A, B> where R: Generate {
    type Output = BinaryOperation<BinaryOperation<A, B>, R>;

    fn add(self, rhs: R) -> (b: Self::Output)
        ensures
            b.lhs() == self,
            b.rhs() == rhs,
            b.operator() == BinaryOp::Add,
    {
        BinaryOperation { lhs: self, rhs, operator: BinaryOp::Add }
    }
}

impl<A, B, R> vstd::std_specs::ops::AddSpecImpl<R> for BinaryOperation<A, B> where R: Generate {
    open spec fn obeys_add_spec() -> bool {
        true
    }

    open spec fn add_req(self, rhs: R) -> bool {
        true
    }

    closed spec fn add_spec(self, rhs: R) -> BinaryOperation<BinaryOperation<A, B>, R> {
        BinaryOperation { lhs: self, rhs, operator: BinaryOp::Add }
    }
}

impl<A, B, R> core::ops::Sub<R> for BinaryOperation<A, B> where R: Generate {
    type Output = BinaryOperation<BinaryOperation<A, B>, R>;

    fn sub(self, rhs: R) -> (b: Self::Output)
        ensures
            b.lhs() == self,
            b.rhs() == rhs,
            b.operator() == BinaryOp::Sub,
    {
        BinaryOperation { lhs: self, rhs, operator: BinaryOp::Sub }
    }
}

impl<A, B, R> vstd::std_specs::ops::SubSpecImpl<R> for BinaryOperation<A, B> where R: Generate {
    open spec fn obeys_sub_spec() -> bool {
        true
    }

    open spec fn sub_req(self, rhs: R) -> bool {
        true
    }

    closed spec fn sub_spec(self, rhs: R) -> BinaryOperation<BinaryOperation<A, B>, R> {
        BinaryOperation { lhs: self, rhs, operator: BinaryOp::Sub }
    }
}

impl<A, B, R> core::ops::Mul<R> for BinaryOperation<A, B> where R: Generate {
    type Output = BinaryOperation<BinaryOperation<A, B>, R>;

    fn mul(self, rhs: R) -> (b: Self::Output)
        ensures
            b.lhs() == self,
            b.rhs() == rhs,
            b.operator() == BinaryOp::Mul,
    {
        BinaryOperation { lhs: self, rhs, operator: BinaryOp::Mul }
    }
}

impl<A, B, R> vstd::std_specs::ops::MulSpecImpl<R> for BinaryOperation<A, B> where R: Generate {
    open spec fn obeys_mul_spec() -> bool {
        true
    }

    open spec fn mul_req(self, rhs: R) -> bool {
        true
    }

    closed spec fn mul_spec(self, rhs: R) -> BinaryOperation<BinaryOperation<A, B>, R> {
        BinaryOperation { lhs: self, rhs, operator: BinaryOp::Mul }
    }
}

impl<A, B, R> core::ops::Div<R> for BinaryOperation<A, B> where R: Generate {
    type Output = BinaryOperation<BinaryOperation<A, B>, R>;

    fn div(self, rhs: R) -> (b: Self::Output)
        ensures
            b.lhs() == self,
            b.rhs() == rhs,
            b.operator() == BinaryOp::Div,
    {
        BinaryOperation { lhs: self, rhs, operator: BinaryOp::Div }
    }
}

impl<A, B, R> vstd::std_specs::ops::DivSpecImpl<R> for BinaryOperation<A, B> where R: Generate {
    open spec fn obeys_div_spec() -> bool {
        true
    }

    open spec fn div_req(self, rhs: R) -> bool {
        true
    }

    closed spec fn div_spec(self, rhs: R) -> BinaryOperation<BinaryOperation<A, B>, R> {
        BinaryOperation { lhs: self, rhs, operator: BinaryOp::Div }
    }
}

impl<A, B, R> core::ops::Rem<R> for BinaryOperation<A, B> where R: Generate {
    type Output = BinaryOperation<BinaryOperation<A, B>, R>;

    fn rem(self, rhs: R) -> (b: Self::Output)
        ensures
            b.lhs() == self,
            b.rhs() == rhs,
            b.operator() == BinaryOp::Rem,
    {
        BinaryOperation { lhs: self, rhs, operator: BinaryOp::Rem }
    }
}

impl<A, B, R> vstd::std_specs::ops::RemSpecImpl<R> for BinaryOperation<A, B> where R: Generate {
    open spec fn obeys_rem_spec() -> bool {
        true
    }

    open spec fn rem_req(self, rhs: R) -> bool {
        true
    }

    closed spec fn rem_spec(self, rhs: R) -> BinaryOperation<BinaryOperation<A, B>, R> {
        BinaryOperation { lhs: self, rhs, operator: BinaryOp::Rem }
    }
}

impl<A> Call<A> {
    /// The comparison `==` of this value with `other`.
    pub fn equals<R>(self, other: R) -> (b: BinaryOperation<Self, R>)
        where
            Self: Generate,
        ensures
            b.lhs() == self,
            b.rhs() == other,
            b.operator() == BinaryOp::Equal,
    {
        BinaryOperation { lhs: self, operator: BinaryOp::Equal, rhs: other }
    }

    /// The comparison `!=` of this value with `other`.
    pub fn not_equals<R>(self, other: R) -> (b: BinaryOperation<Self, R>)
        where
            Self: Generate,
        ensures
            b.lhs() == self,
            b.rhs() == other,
            b.operator() == BinaryOp::NEqual,
    {
        BinaryOperation { lhs: self, operator: BinaryOp::NEqual, rhs: other }
    }

    /// The comparison `<` of this value with `other`.
    pub fn lt<R>(self, other: R) -> (b: BinaryOperation<Self, R>)
        where
            Self: Generate,
        ensures
            b.lhs() == self,
            b.rhs() == other,
            b.operator() == BinaryOp::Lt,
    {
        BinaryOperation { lhs: self, operator: BinaryOp::Lt, rhs: other }
    }

    /// The comparison `<=` of this value with `other`.
    pub fn lte<R>(self, other: R) -> (b: BinaryOperation<Self, R>)
        where
            Self: Generate,
        ensures
            b.lhs() == self,
            b.rhs() == other,
            b.operator() == BinaryOp::LtEqual,
    {
        BinaryOperation { lhs: self, operator: BinaryOp::LtEqual, rhs: other }
    }

    /// The comparison `>` of this value with `other`.
    pub fn gt<R>(self, other: R) -> (b: BinaryOperation<Self, R>)
        where
            Self: Generate,
        ensures
            b.lhs() == self,
            b.rhs() == other,
            b.operator() == BinaryOp::Gt,
    {
        BinaryOperation { lhs: self, operator: BinaryOp::Gt, rhs: other }
    }

    /// The comparison `>=` of this value with `other`.
    pub fn gte<R>(self, other: R) -> (b: BinaryOperation<Self, R>)
        where
            Self: Generate,
        ensures
            b.lhs() == self,
            b.rhs() == other,
            b.operator() == BinaryOp::GtEqual,
    {
        BinaryOperation { lhs: self, operator: BinaryOp::GtEqual, rhs: other }
    }

    /// The comparison `and` of this value with `other`.
    pub fn and<R>(self, other: R) -> (b: BinaryOperation<Self, R>)
        where
            Self: Generate,
        ensures
            b.lhs() == self,
            b.rhs() == other,
            b.operator() == BinaryOp::And,
    {
        BinaryOperation { lhs: self, operator: BinaryOp::And, rhs: other }
    }

    /// The comparison `or` of this value with `other`.
    pub fn or<R>(self, other: R) -> (b: BinaryOperation<Self, R>)
        where
            Self: Generate,
        ensures
            b.lhs() == self,
            b.rhs() == other,
            b.operator() == BinaryOp::Or,
    {
        BinaryOperation { lhs: self, operator: BinaryOp::Or, rhs: other }
    }
}

impl<A, R> core::ops::Add<R> for Call<A> where R: Generate {
    type Output = BinaryOperation<Call<A>, R>;

    fn add(self, rhs: R) -> (b: Self::Output)
        ensures
            b.lhs() == self,
            b.rhs() == rhs,
            b.operator() == BinaryOp::Add,
    {
        BinaryOperation { lhs: self, rhs, operator: BinaryOp::Add }
    }
}

impl<A, R> vstd::std_specs::ops::AddSpecImpl<R> for Call<A> where R: Generate {
    open spec fn obeys_add_spec() -> bool {
        true
    }

    open spec fn add_req(self, rhs: R) -> bool {
        true
    }

    closed spec fn add_spec(self, rhs: R) -> BinaryOperation<Call<A>, R> {
        BinaryOperation { lhs: self, rhs, operator: BinaryOp::Add }
    }
}

impl<A, R> core::ops::Sub<R> for Call<A> where R: Generate {
    type Output = BinaryOperation<Call<A>, R>;

    fn sub(self, rhs: R) -> (b: Self::Output)
        ensures
            b.lhs() == self,
            b.rhs() == rhs,
            b.operator() == BinaryOp::Sub,
    {
        BinaryOperation { lhs: self, rhs, operator: BinaryOp::Sub }
    }
}

impl<A, R> vstd::std_specs::ops::SubSpecImpl<R> for Call<A> where R: Generate {
    open spec fn obeys_sub_spec() -> bool {
        true
    }

    open spec fn sub_req(self, rhs: R) -> bool {
        true
    }

    closed spec fn sub_spec(self, rhs: R) -> BinaryOperation<Call<A>, R> {
        BinaryOperation { lhs: self, rhs, operator: BinaryOp::Sub }
    }
}

impl<A, R> core::ops::Mul<R> for Call<A> where R: Generate {
    type Output = BinaryOperation<Call<A>, R>;

    fn mul(self, rhs: R) -> (b: Self::Output)
        ensures
            b.lhs() == self,
            b.rhs() == rhs,
            b.operator() == BinaryOp::Mul,
    {
        BinaryOperation { lhs: self, rhs, operator: BinaryOp::Mul }
    }
}

impl<A, R> vstd::std_specs::ops::MulSpecImpl<R> for Call<A> where R: Generate {
    open spec fn obeys_mul_spec() -> bool {
        true
    }

    open spec fn mul_req(self, rhs: R) -> bool {
        true
    }

    closed spec fn mul_spec(self, rhs: R) -> BinaryOperation<Call<A>, R> {
        BinaryOperation { lhs: self, rhs, operator: BinaryOp::Mul }
    }
}

impl<A, R> core::ops::Div<R> for Call<A> where R: Generate {
    type Output = BinaryOperation<Call<A>, R>;

    fn div(self, rhs: R) -> (b: Self::Output)
        ensures
            b.lhs() == self,
            b.rhs() == rhs,
            b.operator() == BinaryOp::Div,
    {
        BinaryOperation { lhs: self, rhs, operator: BinaryOp::Div }
    }
}

impl<A, R> vstd::std_specs::ops::DivSpecImpl<R> for Call<A> where R: Generate {
    open spec fn obeys_div_spec() -> bool {
        true
    }

    open spec fn div_req(self, rhs: R) -> bool {
        true
    }

    closed spec fn div_spec(self, rhs: R) -> BinaryOperation<Call<A>, R> {
        BinaryOperation { lhs: self, rhs, operator: BinaryOp::Div }
    }
}

impl<A, R> core::ops::Rem<R> for Call<A> where R: Generate {
    type Output = BinaryOperation<Call<A>, R>;

    fn rem(self, rhs: R) -> (b: Self::Output)
        ensures
            b.lhs() == self,
            b.rhs() == rhs,
            b.operator() == BinaryOp::Rem,
    {
        BinaryOperation { lhs: self, rhs, operator: BinaryOp::Rem }
    }
}

impl<A, R> vstd::std_specs::ops::RemSpecImpl<R> for Call<A> where R: Generate {
    open spec fn obeys_rem_spec() -> bool {
        true
    }

    open spec fn rem_req(self, rhs: R) -> bool {
        true
    }

    closed spec fn rem_spec(self, rhs: R) -> BinaryOperation<Call<A>, R> {
        BinaryOperation { lhs: self, rhs, operator: BinaryOp::Rem }
    }
}

} // verus!

//! Fixed text fragments of the emitted code, each defined once as a byte
//! sequence in spec land with an executable builder that appends it.

use vstd::prelude::*;

verus! {

/// Prefix of the derived implementation name.
pub open spec fn lit_impl_prefix() -> Seq<u8> {
    seq![100u8, 111u8, 95u8]
}

/// Start of the synthesized wrapper body, up to the implementation name.
pub open spec fn lit_wrapper_open() -> Seq<u8> {
    seq![
        123u8, 32u8, 108u8, 101u8, 116u8, 32u8, 114u8, 101u8, 115u8, 117u8, 108u8, 116u8, 32u8, 61u8,
        32u8, 115u8, 101u8, 108u8, 102u8, 46u8,
    ]
}

/// End of the synthesized wrapper body: hand the whole result value to the
/// envelope constructor.
pub open spec fn lit_wrapper_close() -> Seq<u8> {
    seq![
        59u8, 32u8, 97u8, 99u8, 116u8, 95u8, 122u8, 101u8, 114u8, 111u8, 58u8, 58u8, 80u8, 114u8,
        111u8, 100u8, 117u8, 99u8, 101u8, 115u8, 58u8, 58u8, 111u8, 107u8, 40u8, 114u8, 101u8, 115u8,
        117u8, 108u8, 116u8, 41u8, 32u8, 125u8,
    ]
}

/// The suspension point on the forwarding call.
pub open spec fn lit_await() -> Seq<u8> {
    seq![46u8, 97u8, 119u8, 97u8, 105u8, 116u8]
}

/// The delivery-envelope type constructor, up to its type argument.
pub open spec fn lit_envelope_open() -> Seq<u8> {
    seq![
        97u8, 99u8, 116u8, 95u8, 122u8, 101u8, 114u8, 111u8, 58u8, 58u8, 65u8, 99u8, 116u8, 111u8,
        114u8, 82u8, 101u8, 115u8, 117u8, 108u8, 116u8, 60u8,
    ]
}

/// The unit type, standing in for an absent return type.
pub open spec fn lit_unit() -> Seq<u8> {
    seq![40u8, 41u8]
}

/// Rendered public visibility.
pub open spec fn lit_pub() -> Seq<u8> {
    seq![112u8, 117u8, 98u8, 32u8]
}

/// Start of a rendered restricted visibility.
pub open spec fn lit_pub_open() -> Seq<u8> {
    seq![112u8, 117u8, 98u8, 40u8]
}

/// End of a rendered restricted visibility.
pub open spec fn lit_close_paren_space() -> Seq<u8> {
    seq![41u8, 32u8]
}

/// Rendered suspension qualifier.
pub open spec fn lit_async() -> Seq<u8> {
    seq![97u8, 115u8, 121u8, 110u8, 99u8, 32u8]
}

/// The function keyword.
pub open spec fn lit_fn() -> Seq<u8> {
    seq![102u8, 110u8, 32u8]
}

/// Separator between a parameter binding and its type.
pub open spec fn lit_colon_space() -> Seq<u8> {
    seq![58u8, 32u8]
}

/// The return-type arrow.
pub open spec fn lit_arrow() -> Seq<u8> {
    seq![32u8, 45u8, 62u8, 32u8]
}

/// Separator between arguments and between parameters.
pub open spec fn lit_comma_space() -> Seq<u8> {
    seq![44u8, 32u8]
}

/// Blank line between the two emitted definitions.
pub open spec fn lit_blank_line() -> Seq<u8> {
    seq![10u8, 10u8]
}

/// Append [`lit_impl_prefix`] to `dst`.
pub fn push_impl_prefix(dst: &mut Vec<u8>)
    ensures
        final(dst)@ == old(dst)@ + lit_impl_prefix(),
{
    dst.push(100u8);
    dst.push(111u8);
    dst.push(95u8);
    assert(dst@ =~= old(dst)@ + lit_impl_prefix());
}

/// Append [`lit_wrapper_open`] to `dst`.
pub fn push_wrapper_open(dst: &mut Vec<u8>)
    ensures
        final(dst)@ == old(dst)@ + lit_wrapper_open(),
{
    dst.push(123u8);
    dst.push(32u8);
    dst.push(108u8);
    dst.push(101u8);
    dst.push(116u8);
    dst.push(32u8);
    dst.push(114u8);
    dst.push(101u8);
    dst.push(115u8);
    dst.push(117u8);
    dst.push(108u8);
    dst.push(116u8);
    dst.push(32u8);
    dst.push(61u8);
    dst.push(32u8);
    dst.push(115u8);
    dst.push(101u8);
    dst.push(108u8);
    dst.push(102u8);
    dst.push(46u8);
    assert(dst@ =~= old(dst)@ + lit_wrapper_open());
}

/// Append [`lit_wrapper_close`] to `dst`.
pub fn push_wrapper_close(dst: &mut Vec<u8>)
    ensures
        final(dst)@ == old(dst)@ + lit_wrapper_close(),
{
    dst.push(59u8);
    dst.push(32u8);
    dst.push(97u8);
    dst.push(99u8);
    dst.push(116u8);
    dst.push(95u8);
    dst.push(122u8);
    dst.push(101u8);
    dst.push(114u8);
    dst.push(111u8);
    dst.push(58u8);
    dst.push(58u8);
    dst.push(80u8);
    dst.push(114u8);
    dst.push(111u8);
    dst.push(100u8);
    dst.push(117u8);
    dst.push(99u8);
    dst.push(101u8);
    dst.push(115u8);
    dst.push(58u8);
    dst.push(58u8);
    dst.push(111u8);
    dst.push(107u8);
    dst.push(40u8);
    dst.push(114u8);
    dst.push(101u8);
    dst.push(115u8);
    dst.push(117u8);
    dst.push(108u8);
    dst.push(116u8);
    dst.push(41u8);
    dst.push(32u8);
    dst.push(125u8);
    assert(dst@ =~= old(dst)@ + lit_wrapper_close());
}

/// Append [`lit_await`] to `dst`.
pub fn push_await(dst: &mut Vec<u8>)
    ensures
        final(dst)@ == old(dst)@ + lit_await(),
{
    dst.push(46u8);
    dst.push(97u8);
    dst.push(119u8);
    dst.push(97u8);
    dst.push(105u8);
    dst.push(116u8);
    assert(dst@ =~= old(dst)@ + lit_await());
}

/// Append [`lit_envelope_open`] to `dst`.
pub fn push_envelope_open(dst: &mut Vec<u8>)
    ensures
        final(dst)@ == old(dst)@ + lit_envelope_open(),
{
    dst.push(97u8);
    dst.push(99u8);
    dst.push(116u8);
    dst.push(95u8);
    dst.push(122u8);
    dst.push(101u8);
    dst.push(114u8);
    dst.push(111u8);
    dst.push(58u8);
    dst.push(58u8);
    dst.push(65u8);
    dst.push(99u8);
    dst.push(116u8);
    dst.push(111u8);
    dst.push(114u8);
    dst.push(82u8);
    dst.push(101u8);
    dst.push(115u8);
    dst.push(117u8);
    dst.push(108u8);
    dst.push(116u8);
    dst.push(60u8);
    assert(dst@ =~= old(dst)@ + lit_envelope_open());
}

/// Append [`lit_unit`] to `dst`.
pub fn push_unit(dst: &mut Vec<u8>)
    ensures
        final(dst)@ == old(dst)@ + lit_unit(),
{
    dst.push(40u8);
    dst.push(41u8);
    assert(dst@ =~= old(dst)@ + lit_unit());
}

/// Append [`lit_pub`] to `dst`.
pub fn push_pub(dst: &mut Vec<u8>)
    ensures
        final(dst)@ == old(dst)@ + lit_pub(),
{
    dst.push(112u8);
    dst.push(117u8);
    dst.push(98u8);
    dst.push(32u8);
    assert(dst@ =~= old(dst)@ + lit_pub());
}

/// Append [`lit_pub_open`] to `dst`.
pub fn push_pub_open(dst: &mut Vec<u8>)
    ensures
        final(dst)@ == old(dst)@ + lit_pub_open(),
{
    dst.push(112u8);
    dst.push(117u8);
    dst.push(98u8);
    dst.push(40u8);
    assert(dst@ =~= old(dst)@ + lit_pub_open());
}

/// Append [`lit_close_paren_space`] to `dst`.
pub fn push_close_paren_space(dst: &mut Vec<u8>)
    ensures
        final(dst)@ == old(dst)@ + lit_close_paren_space(),
{
    dst.push(41u8);
    dst.push(32u8);
    assert(dst@ =~= old(dst)@ + lit_close_paren_space());
}

/// Append [`lit_async`] to `dst`.
pub fn push_async(dst: &mut Vec<u8>)
    ensures
        final(dst)@ == old(dst)@ + lit_async(),
{
    dst.push(97u8);
    dst.push(115u8);
    dst.push(121u8);
    dst.push(110u8);
    dst.push(99u8);
    dst.push(32u8);
    assert(dst@ =~= old(dst)@ + lit_async());
}

/// Append [`lit_fn`] to `dst`.
pub fn push_fn(dst: &mut Vec<u8>)
    ensures
        final(dst)@ == old(dst)@ + lit_fn(),
{
    dst.push(102u8);
    dst.push(110u8);
    dst.push(32u8);
    assert(dst@ =~= old(dst)@ + lit_fn());
}

/// Append [`lit_colon_space`] to `dst`.
pub fn push_colon_space(dst: &mut Vec<u8>)
    ensures
        final(dst)@ == old(dst)@ + lit_colon_space(),
{
    dst.push(58u8);
    dst.push(32u8);
    assert(dst@ =~= old(dst)@ + lit_colon_space());
}

/// Append [`lit_arrow`] to `dst`.
pub fn push_arrow(dst: &mut Vec<u8>)
    ensures
        final(dst)@ == old(dst)@ + lit_arrow(),
{
    dst.push(32u8);
    dst.push(45u8);
    dst.push(62u8);
    dst.push(32u8);
    assert(dst@ =~= old(dst)@ + lit_arrow());
}

/// Append [`lit_comma_space`] to `dst`.
pub fn push_comma_space(dst: &mut Vec<u8>)
    ensures
        final(dst)@ == old(dst)@ + lit_comma_space(),
{
    dst.push(44u8);
    dst.push(32u8);
    assert(dst@ =~= old(dst)@ + lit_comma_space());
}

/// Append [`lit_blank_line`] to `dst`.
pub fn push_blank_line(dst: &mut Vec<u8>)
    ensures
        final(dst)@ == old(dst)@ + lit_blank_line(),
{
    dst.push(10u8);
    dst.push(10u8);
    assert(dst@ =~= old(dst)@ + lit_blank_line());
}

} // verus!

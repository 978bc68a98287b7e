use vstd::prelude::*;

verus! {

/// The bytes of the leading field of a configuration line: `config`.
pub open spec fn config_spec() -> Seq<u8> {
    seq![99u8, 111u8, 110u8, 102u8, 105u8, 103u8]
}

/// Builds the bytes of the leading field of a configuration line.
pub fn config_bytes() -> (r: Vec<u8>)
    ensures
        r@ == config_spec(),
{
    vec![99u8, 111u8, 110u8, 102u8, 105u8, 103u8]
}

/// The bytes of the configuration step that asks for registration: `ready`.
pub open spec fn ready_spec() -> Seq<u8> {
    seq![114u8, 101u8, 97u8, 100u8, 121u8]
}

/// Builds the bytes of the configuration step that asks for registration.
pub fn ready_bytes() -> (r: Vec<u8>)
    ensures
        r@ == ready_spec(),
{
    vec![114u8, 101u8, 97u8, 100u8, 121u8]
}

/// The bytes of the leading field of a report line: `report`.
pub open spec fn report_spec() -> Seq<u8> {
    seq![114u8, 101u8, 112u8, 111u8, 114u8, 116u8]
}

/// Builds the bytes of the leading field of a report line.
pub fn report_bytes() -> (r: Vec<u8>)
    ensures
        r@ == report_spec(),
{
    vec![114u8, 101u8, 112u8, 111u8, 114u8, 116u8]
}

/// The bytes of the leading field of a filter line: `filter`.
pub open spec fn filter_spec() -> Seq<u8> {
    seq![102u8, 105u8, 108u8, 116u8, 101u8, 114u8]
}

/// Builds the bytes of the leading field of a filter line.
pub fn filter_bytes() -> (r: Vec<u8>)
    ensures
        r@ == filter_spec(),
{
    vec![102u8, 105u8, 108u8, 116u8, 101u8, 114u8]
}

/// The bytes of the phase that opens a transaction: `tx-begin`.
pub open spec fn tx_begin_spec() -> Seq<u8> {
    seq![116u8, 120u8, 45u8, 98u8, 101u8, 103u8, 105u8, 110u8]
}

/// Builds the bytes of the phase that opens a transaction.
pub fn tx_begin_bytes() -> (r: Vec<u8>)
    ensures
        r@ == tx_begin_spec(),
{
    vec![116u8, 120u8, 45u8, 98u8, 101u8, 103u8, 105u8, 110u8]
}

/// The bytes of the phase that declares a recipient: `tx-rcpt`.
pub open spec fn tx_rcpt_spec() -> Seq<u8> {
    seq![116u8, 120u8, 45u8, 114u8, 99u8, 112u8, 116u8]
}

/// Builds the bytes of the phase that declares a recipient.
pub fn tx_rcpt_bytes() -> (r: Vec<u8>)
    ensures
        r@ == tx_rcpt_spec(),
{
    vec![116u8, 120u8, 45u8, 114u8, 99u8, 112u8, 116u8]
}

/// The bytes of the phase that closes a connection: `link-disconnect`.
pub open spec fn link_disconnect_spec() -> Seq<u8> {
    seq![108u8, 105u8, 110u8, 107u8, 45u8, 100u8, 105u8, 115u8, 99u8, 111u8, 110u8, 110u8, 101u8, 99u8, 116u8]
}

/// Builds the bytes of the phase that closes a connection.
pub fn link_disconnect_bytes() -> (r: Vec<u8>)
    ensures
        r@ == link_disconnect_spec(),
{
    vec![108u8, 105u8, 110u8, 107u8, 45u8, 100u8, 105u8, 115u8, 99u8, 111u8, 110u8, 110u8, 101u8, 99u8, 116u8]
}

/// The bytes of the phase that carries one line of message data: `data-line`.
pub open spec fn data_line_spec() -> Seq<u8> {
    seq![100u8, 97u8, 116u8, 97u8, 45u8, 108u8, 105u8, 110u8, 101u8]
}

/// Builds the bytes of the phase that carries one line of message data.
pub fn data_line_bytes() -> (r: Vec<u8>)
    ensures
        r@ == data_line_spec(),
{
    vec![100u8, 97u8, 116u8, 97u8, 45u8, 108u8, 105u8, 110u8, 101u8]
}

/// The bytes of the phase name that asks for a verdict.
pub open spec fn commit_spec() -> Seq<u8> {
    seq![99u8, 111u8, 109u8, 109u8, 105u8, 116u8]
}

/// Builds the bytes of the phase that asks for a verdict.
pub fn commit_bytes() -> (r: Vec<u8>)
    ensures
        r@ == commit_spec(),
{
    vec![99u8, 111u8, 109u8, 109u8, 105u8, 116u8]
}

/// The bytes of the status of an accepted recipient: `ok`.
pub open spec fn ok_spec() -> Seq<u8> {
    seq![111u8, 107u8]
}

/// Builds the bytes of the status of an accepted recipient.
pub fn ok_bytes() -> (r: Vec<u8>)
    ensures
        r@ == ok_spec(),
{
    vec![111u8, 107u8]
}

/// The bytes of the end-of-data terminator: `.`.
pub open spec fn dot_spec() -> Seq<u8> {
    seq![46u8]
}

/// Builds the bytes of the end-of-data terminator.
pub fn dot_bytes() -> (r: Vec<u8>)
    ensures
        r@ == dot_spec(),
{
    vec![46u8]
}

/// The bytes of the start of a data-line echo: `filter-dataline|`.
pub open spec fn dataline_prefix_spec() -> Seq<u8> {
    seq![102u8, 105u8, 108u8, 116u8, 101u8, 114u8, 45u8, 100u8, 97u8, 116u8, 97u8, 108u8, 105u8, 110u8, 101u8, 124u8]
}

/// Builds the bytes of the start of a data-line echo.
pub fn dataline_prefix_bytes() -> (r: Vec<u8>)
    ensures
        r@ == dataline_prefix_spec(),
{
    vec![102u8, 105u8, 108u8, 116u8, 101u8, 114u8, 45u8, 100u8, 97u8, 116u8, 97u8, 108u8, 105u8, 110u8, 101u8, 124u8]
}

/// The bytes of the start of a verdict line: `filter-result|`.
pub open spec fn result_prefix_spec() -> Seq<u8> {
    seq![102u8, 105u8, 108u8, 116u8, 101u8, 114u8, 45u8, 114u8, 101u8, 115u8, 117u8, 108u8, 116u8, 124u8]
}

/// Builds the bytes of the start of a verdict line.
pub fn result_prefix_bytes() -> (r: Vec<u8>)
    ensures
        r@ == result_prefix_spec(),
{
    vec![102u8, 105u8, 108u8, 116u8, 101u8, 114u8, 45u8, 114u8, 101u8, 115u8, 117u8, 108u8, 116u8, 124u8]
}

/// The bytes of the verdict that lets a message through: `proceed`.
pub open spec fn proceed_spec() -> Seq<u8> {
    seq![112u8, 114u8, 111u8, 99u8, 101u8, 101u8, 100u8]
}

/// Builds the bytes of the verdict that lets a message through.
pub fn proceed_bytes() -> (r: Vec<u8>)
    ensures
        r@ == proceed_spec(),
{
    vec![112u8, 114u8, 111u8, 99u8, 101u8, 101u8, 100u8]
}

/// The bytes of the verdict that turns a message away: `reject|550 Sender name contains recipient domain`.
pub open spec fn reject_spec() -> Seq<u8> {
    seq![114u8, 101u8, 106u8, 101u8, 99u8, 116u8, 124u8, 53u8, 53u8, 48u8, 32u8, 83u8, 101u8, 110u8, 100u8, 101u8, 114u8, 32u8, 110u8, 97u8, 109u8, 101u8, 32u8, 99u8, 111u8, 110u8, 116u8, 97u8, 105u8, 110u8, 115u8, 32u8, 114u8, 101u8, 99u8, 105u8, 112u8, 105u8, 101u8, 110u8, 116u8, 32u8, 100u8, 111u8, 109u8, 97u8, 105u8, 110u8]
}

/// Builds the bytes of the verdict that turns a message away.
pub fn reject_bytes() -> (r: Vec<u8>)
    ensures
        r@ == reject_spec(),
{
    vec![114u8, 101u8, 106u8, 101u8, 99u8, 116u8, 124u8, 53u8, 53u8, 48u8, 32u8, 83u8, 101u8, 110u8, 100u8, 101u8, 114u8, 32u8, 110u8, 97u8, 109u8, 101u8, 32u8, 99u8, 111u8, 110u8, 116u8, 97u8, 105u8, 110u8, 115u8, 32u8, 114u8, 101u8, 99u8, 105u8, 112u8, 105u8, 101u8, 110u8, 116u8, 32u8, 100u8, 111u8, 109u8, 97u8, 105u8, 110u8]
}

/// The bytes of the registration lines sent in answer to `config|ready`: `register|report|smtp-in|tx-begin\nregister|report|smtp-in|tx-rcpt\nregister|filter|smtp-in|data-line\nregister|filter|smtp-in|commit\nregister|report|smtp-in|link-disconnect\nregister|ready\n`.
pub open spec fn handshake_spec() -> Seq<u8> {
    seq![114u8, 101u8, 103u8, 105u8, 115u8, 116u8, 101u8, 114u8, 124u8, 114u8, 101u8, 112u8, 111u8, 114u8, 116u8, 124u8, 115u8, 109u8, 116u8, 112u8, 45u8, 105u8, 110u8, 124u8, 116u8, 120u8, 45u8, 98u8, 101u8, 103u8, 105u8, 110u8, 10u8, 114u8, 101u8, 103u8, 105u8, 115u8, 116u8, 101u8, 114u8, 124u8, 114u8, 101u8, 112u8, 111u8, 114u8, 116u8, 124u8, 115u8, 109u8, 116u8, 112u8, 45u8, 105u8, 110u8, 124u8, 116u8, 120u8, 45u8, 114u8, 99u8, 112u8, 116u8, 10u8, 114u8, 101u8, 103u8, 105u8, 115u8, 116u8, 101u8, 114u8, 124u8, 102u8, 105u8, 108u8, 116u8, 101u8, 114u8, 124u8, 115u8, 109u8, 116u8, 112u8, 45u8, 105u8, 110u8, 124u8, 100u8, 97u8, 116u8, 97u8, 45u8, 108u8, 105u8, 110u8, 101u8, 10u8, 114u8, 101u8, 103u8, 105u8, 115u8, 116u8, 101u8, 114u8, 124u8, 102u8, 105u8, 108u8, 116u8, 101u8, 114u8, 124u8, 115u8, 109u8, 116u8, 112u8, 45u8, 105u8, 110u8, 124u8, 99u8, 111u8, 109u8, 109u8, 105u8, 116u8, 10u8, 114u8, 101u8, 103u8, 105u8, 115u8, 116u8, 101u8, 114u8, 124u8, 114u8, 101u8, 112u8, 111u8, 114u8, 116u8, 124u8, 115u8, 109u8, 116u8, 112u8, 45u8, 105u8, 110u8, 124u8, 108u8, 105u8, 110u8, 107u8, 45u8, 100u8, 105u8, 115u8, 99u8, 111u8, 110u8, 110u8, 101u8, 99u8, 116u8, 10u8, 114u8, 101u8, 103u8, 105u8, 115u8, 116u8, 101u8, 114u8, 124u8, 114u8, 101u8, 97u8, 100u8, 121u8, 10u8]
}

/// Builds the bytes of the registration lines sent in answer to `config|ready`.
pub fn handshake_bytes() -> (r: Vec<u8>)
    ensures
        r@ == handshake_spec(),
{
    vec![114u8, 101u8, 103u8, 105u8, 115u8, 116u8, 101u8, 114u8, 124u8, 114u8, 101u8, 112u8, 111u8, 114u8, 116u8, 124u8, 115u8, 109u8, 116u8, 112u8, 45u8, 105u8, 110u8, 124u8, 116u8, 120u8, 45u8, 98u8, 101u8, 103u8, 105u8, 110u8, 10u8, 114u8, 101u8, 103u8, 105u8, 115u8, 116u8, 101u8, 114u8, 124u8, 114u8, 101u8, 112u8, 111u8, 114u8, 116u8, 124u8, 115u8, 109u8, 116u8, 112u8, 45u8, 105u8, 110u8, 124u8, 116u8, 120u8, 45u8, 114u8, 99u8, 112u8, 116u8, 10u8, 114u8, 101u8, 103u8, 105u8, 115u8, 116u8, 101u8, 114u8, 124u8, 102u8, 105u8, 108u8, 116u8, 101u8, 114u8, 124u8, 115u8, 109u8, 116u8, 112u8, 45u8, 105u8, 110u8, 124u8, 100u8, 97u8, 116u8, 97u8, 45u8, 108u8, 105u8, 110u8, 101u8, 10u8, 114u8, 101u8, 103u8, 105u8, 115u8, 116u8, 101u8, 114u8, 124u8, 102u8, 105u8, 108u8, 116u8, 101u8, 114u8, 124u8, 115u8, 109u8, 116u8, 112u8, 45u8, 105u8, 110u8, 124u8, 99u8, 111u8, 109u8, 109u8, 105u8, 116u8, 10u8, 114u8, 101u8, 103u8, 105u8, 115u8, 116u8, 101u8, 114u8, 124u8, 114u8, 101u8, 112u8, 111u8, 114u8, 116u8, 124u8, 115u8, 109u8, 116u8, 112u8, 45u8, 105u8, 110u8, 124u8, 108u8, 105u8, 110u8, 107u8, 45u8, 100u8, 105u8, 115u8, 99u8, 111u8, 110u8, 110u8, 101u8, 99u8, 116u8, 10u8, 114u8, 101u8, 103u8, 105u8, 115u8, 116u8, 101u8, 114u8, 124u8, 114u8, 101u8, 97u8, 100u8, 121u8, 10u8]
}

} // verus!

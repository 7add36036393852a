# graph_chain_cosmos

Cosmos blocks as a source of subgraph triggers, verified with Verus.

A firehose delivers encoded blocks, each with a step (new or undone) and a cursor. The library
decodes a block, finds in it what a subgraph asked for, and says whether the block is to be
processed or the chain to be reverted.

| Module | Content |
| --- | --- |
| `wire` | keys and values of the wire format, taken off a buffer by `prost` |
| `schema`, `fields` | which fields the messages have, and encoded messages as lists of fields |
| `lookup`, `decode` | fields by tag, and messages from their fields |
| `encode`, `read_back`, `round_trip` | how a block is encoded, and why decoding undoes it |
| `parts` | why the parts of a block that stay encoded are messages |
| `codec`, `block` | the messages of a block with their models, and how a block is read |
| `adapter`, `trigger` | the filter and the triggers |
| `triggers` | the triggers of a block |
| `firehose` | events, errors and faults of firehose responses |
| `chain` | what block streams and ingestors start from |
| `laws`, `sequences` | what holds of all blocks and responses, and the sequence facts behind it |

Contracts speak of models: the `deep_view` of a message, a trigger or an event.

What is believed without proof is in `wire` (five calls into `prost::encoding`, and two that make
and extend a `prost::DecodeError`) and in `error` (`prost::DecodeError` and its text).

`app/` connects the library to the stores, logs and firehose connections of a platform.

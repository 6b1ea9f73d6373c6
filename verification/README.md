# client_audit_logs

The client audit log service keeps one record per change to a client's
account: who made it, when, what kind of change, and the client's context
before and after. The contexts are stored AES-encrypted.

`src/` is the verified library:

- `postgres/dto.rs`: the stored record, its kind and that kind's integer code,
  the order details, the page queries, and the encryption and decryption of a
  record's contexts.
- `postgres/utils.rs`: what one text field is stored as and read back as. The
  empty text never goes through the cipher; the cipher's outcomes are passed in.
- `postgres/serializable.rs`: the integer codes of platforms and brokers.
- `postgres/repo.rs`: which query reads a page of records.
- `grpc/`: the record's wire form and the decisions of the two handlers,
  among them the replay of a kept answer for a repeated process id.
- `flows/`: the decisions of the trader account order flow.
- `ids.rs`: fresh random record and order ids.

`app/` holds the service around it: settings, the database, the AES cipher,
the answer cache and the gRPC server.

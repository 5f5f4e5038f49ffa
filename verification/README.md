# flowy_user_pub

The user and file-storage entities of the Flowy client layer, verified with Verus.

- `src/kinds.rs`: workspace types, auth types, roles, their codes and conversions.
- `src/encryption.rs`: encryption types and their signs.
- `src/ids.rs`: 128-bit identifiers, their text form, parsing and name-based derivation.
- `src/workspace.rs`: user workspaces.
- `src/user.rs`: sign-in parameters, server answers, user profiles and profile updates.
- `src/file_storage.rs`: planning of the requests of the cloud file-storage service.
- `src/json.rs`, `src/time.rs`: the JSON metadata lookup and the clock.
- `app/`: serde copies of the entities and the service that talks to the server.

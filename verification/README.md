# Zana

Zana is a command-line wrapper around the AWS SDK: it lists Glue jobs, tables
and databases, S3 buckets and objects, RDS instances, DynamoDB tables,
Redshift clusters, Resource Explorer results, Bedrock models and Cost
Explorer reports, and it configures credentials through AWS SSO.

The logic is a library verified with Verus:

- `src/text.rs` – string helpers (decimal and hex printing, case folding,
  trimming, search, ordering, joining), each proved against a spec.
- `src/ini.rs` – the INI documents of `configparser`, behind trusted wrappers.
- `src/aws/` – the credentials and AWS CLI config files, the SSO session name,
  account and role ordering, the token cache key, the device-login decisions,
  the credentials check as a state machine, and the records built from each
  service's answers.
- `src/browser.rs` – the URL menu and the choice of browser.
- `src/cli/` – prompt texts and the routing of a subcommand path.

`app/` is the program around it: the command line, the AWS clients, file and
terminal I/O. `tests/` runs the library on concrete values.

The tool appends the SSO session and profile configuration to
`~/.aws/config`, and caches its token under `~/.aws/sso/cache`, in a file named
after the SHA-1 of the session name.

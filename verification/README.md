# spot_gitlab_driver

A [custom executor](https://docs.gitlab.com/runner/executors/custom/) for
`gitlab-runner`: for each job it requests a spot instance, runs the scripts of
the job there and gives the instance back.

What the driver decides is in `src/`, verified with
[Verus](https://github.com/verus-lang/verus): the stages of a job as state
machines, the fleet request, the places of files, the numbers of the
environment and the messages. What it does is in `app/`: arguments, logging,
the cloud's API, SSH and files.

| module    | what it decides                                               |
|-----------|---------------------------------------------------------------|
| `driver`  | which stage runs, what follows its failure, the exit code      |
| `config`  | key pair, private key, fleet request, first record of the job  |
| `prepare` | waiting for the instance, letting root in, noting the address  |
| `run`     | login, shell, script, exit code                                |
| `cleanup` | cancellation, removal of the record                            |
| `logger`  | journal or stderr, and the default level                       |
| `fleet`   | the request, and what the replies of the cloud say             |
| `ssh`     | logins and remote commands                                     |
| `state`   | the record of a job and where it lies                          |
| `path`    | Unix paths as bytes                                            |
| `number`  | decimal numbers                                                |
| `text`    | texts, characters and their encoding                           |

`app/ec2.rs` also needs the crate `aws-sdk-ec2`. It takes several gigabytes of
memory to compile, and nothing else uses it, so it is not among the dependencies
in `Cargo.toml`: add it there to build `app/`.

Laws that span several calls are public proof functions named `law_...`, next
to what they speak of.

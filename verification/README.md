# sonarr-operator

A Kubernetes operator that manages Sonarr instances and their configuration
(tags, indexers, download clients, notifications, profiles, series, global
settings) through custom resources in the `devopsarr.io/v1alpha1` group.

## Layout

- `src/` is the verified library, written in Verus. It holds the resource
  model, the plans of the Kubernetes objects applied for an instance (claim,
  secret, Deployment, Service, Ingress, HTTPRoute), the payloads sent to the
  Sonarr API, the sync decisions (refresh a recorded id, adopt an object of
  the same name, create), the singleton rule and settings merge of the
  global configuration resources, the status conditions, the cache of
  connection settings, and the Helm templating of the definitions. Each
  function states its result in its contract; the laws that relate several
  calls are public proof functions next to the functions they speak of.
- `tests/` runs the library on concrete values.
- `app/` is the program: the custom resource types with their Kubernetes
  and serde derives, conversions to and from the library's types, the
  controller loops, and the Kubernetes and Sonarr calls. `crdgen` as first
  argument prints the custom resource definitions instead of running the
  operator.
